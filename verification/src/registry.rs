//! A two-way index between the ids handed to SimConnect and the names they
//! were handed out for: each id stands for one name and each name for at most
//! one id.
use vstd::prelude::*;

verus! {

/// No two entries share an id.
pub open spec fn ids_distinct(s: Seq<(u32, Seq<char>)>) -> bool {
    forall|i: int, j: int| 0 <= i < s.len() && 0 <= j < s.len() && i != j ==> #[trigger] s[i].0 != #[trigger] s[j].0
}

/// No two entries share a name.
pub open spec fn names_distinct(s: Seq<(u32, Seq<char>)>) -> bool {
    forall|i: int, j: int| 0 <= i < s.len() && 0 <= j < s.len() && i != j ==> #[trigger] s[i].1 != #[trigger] s[j].1
}

/// The map from id to name that a list of entries stands for.
pub open spec fn entries_map(s: Seq<(u32, Seq<char>)>) -> Map<u32, Seq<char>> {
    Map::new(
        |id: u32| exists|i: int| 0 <= i < s.len() && #[trigger] s[i].0 == id,
        |id: u32| s[choose|i: int| 0 <= i < s.len() && #[trigger] s[i].0 == id].1,
    )
}

/// The id that `name` is registered under in `m`, if any.
pub open spec fn id_for_name(m: Map<u32, Seq<char>>, name: Seq<char>) -> Option<u32> {
    if m.contains_value(name) {
        Some(choose|id: u32| #[trigger] m.dom().contains(id) && m[id] == name)
    } else {
        None
    }
}

/// In an injective map the id found for a name is the one it is stored under.
pub proof fn lemma_id_for_name_is_key(m: Map<u32, Seq<char>>, id: u32)
    requires
        m.is_injective(),
        m.contains_key(id),
    ensures
        id_for_name(m, m[id]) == Some(id),
{
    assert(m.dom().contains(id) && m[id] == m[id]);
    let k = choose|k: u32| #[trigger] m.dom().contains(k) && m[k] == m[id];
    assert(m.dom().contains(k) && m[k] == m[id]);
}

proof fn lemma_entry_in_map(s: Seq<(u32, Seq<char>)>, i: int)
    requires
        ids_distinct(s),
        0 <= i < s.len(),
    ensures
        entries_map(s).contains_key(s[i].0),
        entries_map(s)[s[i].0] == s[i].1,
{
    let id = s[i].0;
    assert(0 <= i < s.len() && s[i].0 == id);
    let k = choose|k: int| 0 <= k < s.len() && #[trigger] s[k].0 == id;
    assert(k == i);
}

proof fn lemma_key_has_entry(s: Seq<(u32, Seq<char>)>, id: u32) -> (i: int)
    requires
        ids_distinct(s),
        entries_map(s).contains_key(id),
    ensures
        0 <= i < s.len(),
        s[i].0 == id,
        entries_map(s)[id] == s[i].1,
{
    let i = choose|k: int| 0 <= k < s.len() && #[trigger] s[k].0 == id;
    lemma_entry_in_map(s, i);
    i
}

proof fn lemma_map_injective(s: Seq<(u32, Seq<char>)>)
    requires
        ids_distinct(s),
        names_distinct(s),
    ensures
        entries_map(s).is_injective(),
{
    let m = entries_map(s);
    assert forall|x: u32, y: u32|
        x != y && m.dom().contains(x) && m.dom().contains(y) implies #[trigger] m[x] != #[trigger] m[y] by {
        lemma_key_has_entry(s, x);
        lemma_key_has_entry(s, y);
    }
}

proof fn lemma_push(s: Seq<(u32, Seq<char>)>, e: (u32, Seq<char>))
    requires
        ids_distinct(s),
        !entries_map(s).contains_key(e.0),
    ensures
        ids_distinct(s.push(e)),
        entries_map(s.push(e)) =~= entries_map(s).insert(e.0, e.1),
{
    let t = s.push(e);
    assert forall|i: int| 0 <= i < s.len() implies #[trigger] s[i].0 != e.0 by {
        lemma_entry_in_map(s, i);
    }
    assert(ids_distinct(t));
    let m = entries_map(s).insert(e.0, e.1);
    assert forall|id: u32| #[trigger] entries_map(t).contains_key(id) <==> m.contains_key(id) by {
        if m.contains_key(id) {
            if id == e.0 {
                lemma_entry_in_map(t, s.len() as int);
            } else {
                let i = lemma_key_has_entry(s, id);
                lemma_entry_in_map(t, i);
            }
        }
        if entries_map(t).contains_key(id) {
            let i = lemma_key_has_entry(t, id);
            if i < s.len() {
                lemma_entry_in_map(s, i);
            }
        }
    }
    assert forall|id: u32| #[trigger] entries_map(t).contains_key(id) implies entries_map(t)[id] == m[id] by {
        let i = lemma_key_has_entry(t, id);
        if i < s.len() {
            lemma_entry_in_map(s, i);
        }
    }
}

proof fn lemma_remove(s: Seq<(u32, Seq<char>)>, i: int)
    requires
        ids_distinct(s),
        0 <= i < s.len(),
    ensures
        ids_distinct(s.remove(i)),
        entries_map(s.remove(i)) =~= entries_map(s).remove(s[i].0),
{
    let t = s.remove(i);
    s.remove_ensures(i);
    assert forall|a: int, b: int| 0 <= a < t.len() && 0 <= b < t.len() && a != b implies #[trigger] t[a].0 != #[trigger] t[b].0 by {
        let a2 = if a < i { a } else { a + 1 };
        let b2 = if b < i { b } else { b + 1 };
        assert(t[a] == s[a2]);
        assert(t[b] == s[b2]);
    }
    let m = entries_map(s).remove(s[i].0);
    assert forall|id: u32| #[trigger] entries_map(t).contains_key(id) <==> m.contains_key(id) by {
        if m.contains_key(id) {
            let k = lemma_key_has_entry(s, id);
            assert(k != i);
            let k2 = if k < i { k } else { k - 1 };
            assert(t[k2] == s[k]);
            lemma_entry_in_map(t, k2);
        }
        if entries_map(t).contains_key(id) {
            let k = lemma_key_has_entry(t, id);
            let k2 = if k < i { k } else { k + 1 };
            assert(t[k] == s[k2]);
            lemma_entry_in_map(s, k2);
        }
    }
    assert forall|id: u32| #[trigger] entries_map(t).contains_key(id) implies entries_map(t)[id] == m[id] by {
        let k = lemma_key_has_entry(t, id);
        let k2 = if k < i { k } else { k + 1 };
        assert(t[k] == s[k2]);
        lemma_entry_in_map(s, k2);
    }
}

/// Ids paired with the names they were handed out for.
pub struct NameRegistry {
    entries: Vec<(u32, String)>,
}

impl NameRegistry {
    spec fn entry_views(&self) -> Seq<(u32, Seq<char>)> {
        self.entries@.map_values(|e: (u32, String)| (e.0, e.1@))
    }

    #[verifier::type_invariant]
    spec fn well_formed(&self) -> bool {
        &&& ids_distinct(self.entry_views())
        &&& names_distinct(self.entry_views())
    }

    /// The registry as a map from id to name.
    pub closed spec fn as_map(&self) -> Map<u32, Seq<char>> {
        entries_map(self.entry_views())
    }

    /// An empty registry.
    pub fn new() -> (registry: Self)
        ensures
            registry@ == Map::<u32, Seq<char>>::empty(),
            registry@.is_injective(),
    {
        let registry = NameRegistry { entries: Vec::new() };
        assert(registry@ =~= Map::<u32, Seq<char>>::empty());
        registry
    }

    /// Whether the registry holds `id`.
    pub fn contains_id(&self, id: u32) -> (found: bool)
        ensures
            found == self@.contains_key(id),
            self@.is_injective(),
    {
        proof {
            use_type_invariant(self);
            lemma_map_injective(self.entry_views());
        }
        let mut i: usize = 0;
        while i < self.entries.len()
            invariant
                0 <= i <= self.entries@.len(),
                ids_distinct(self.entry_views()),
                self@.is_injective(),
                forall|j: int| 0 <= j < i ==> #[trigger] self.entry_views()[j].0 != id,
            decreases self.entries@.len() - i,
        {
            if self.entries[i].0 == id {
                proof {
                    lemma_entry_in_map(self.entry_views(), i as int);
                }
                return true;
            }
            i = i + 1;
        }
        proof {
            if self@.contains_key(id) {
                lemma_key_has_entry(self.entry_views(), id);
            }
        }
        false
    }

    /// The id that `name` is registered under, if any.
    pub fn id_of(&self, name: &String) -> (id: Option<u32>)
        ensures
            id == id_for_name(self@, name@),
            self@.is_injective(),
    {
        proof {
            use_type_invariant(self);
            lemma_map_injective(self.entry_views());
        }
        let mut i: usize = 0;
        while i < self.entries.len()
            invariant
                0 <= i <= self.entries@.len(),
                ids_distinct(self.entry_views()),
                self@.is_injective(),
                forall|j: int| 0 <= j < i ==> #[trigger] self.entry_views()[j].1 != name@,
            decreases self.entries@.len() - i,
        {
            if self.entries[i].1 == *name {
                proof {
                    lemma_entry_in_map(self.entry_views(), i as int);
                    lemma_id_for_name_is_key(self@, self.entries@[i as int].0);
                }
                return Some(self.entries[i].0);
            }
            i = i + 1;
        }
        proof {
            if self@.contains_value(name@) {
                let id = choose|id: u32| #[trigger] self@.dom().contains(id) && self@[id] == name@;
                lemma_key_has_entry(self.entry_views(), id);
            }
        }
        None
    }

    /// The name registered under `id`, if any.
    pub fn name_of(&self, id: u32) -> (name: Option<String>)
        ensures
            name is Some == self@.contains_key(id),
            name matches Some(n) ==> n@ == self@[id],
            self@.is_injective(),
    {
        proof {
            use_type_invariant(self);
            lemma_map_injective(self.entry_views());
        }
        let mut i: usize = 0;
        while i < self.entries.len()
            invariant
                0 <= i <= self.entries@.len(),
                ids_distinct(self.entry_views()),
                self@.is_injective(),
                forall|j: int| 0 <= j < i ==> #[trigger] self.entry_views()[j].0 != id,
            decreases self.entries@.len() - i,
        {
            if self.entries[i].0 == id {
                proof {
                    lemma_entry_in_map(self.entry_views(), i as int);
                }
                return Some(self.entries[i].1.clone());
            }
            i = i + 1;
        }
        proof {
            if self@.contains_key(id) {
                lemma_key_has_entry(self.entry_views(), id);
            }
        }
        None
    }

    /// Registers `name` under `id`; neither may be registered yet.
    pub fn insert(&mut self, id: u32, name: String)
        requires
            !old(self)@.contains_key(id),
            !old(self)@.contains_value(name@),
        ensures
            final(self)@ == old(self)@.insert(id, name@),
            final(self)@.is_injective(),
    {
        proof {
            use_type_invariant(&*self);
        }
        let ghost before = self.entry_views();
        let ghost name_view = name@;
        proof {
            assert forall|i: int| 0 <= i < before.len() implies #[trigger] before[i].1 != name_view by {
                lemma_entry_in_map(before, i);
            }
            lemma_push(before, (id, name_view));
        }
        let mut entries = Vec::new();
        std::mem::swap(&mut entries, &mut self.entries);
        entries.push((id, name));
        proof {
            let after = entries@.map_values(|e: (u32, String)| (e.0, e.1@));
            assert(after =~= before.push((id, name_view)));
            assert(names_distinct(after)) by {
                assert forall|a: int, b: int| 0 <= a < after.len() && 0 <= b < after.len() && a != b implies #[trigger] after[a].1 != #[trigger] after[b].1 by {
                    if a < before.len() && b < before.len() {
                        assert(after[a] == before[a]);
                        assert(after[b] == before[b]);
                    } else if a < before.len() {
                        assert(after[a] == before[a]);
                    } else {
                        assert(after[b] == before[b]);
                    }
                }
            }
            lemma_map_injective(after);
        }
        self.entries = entries;
    }

    /// Removes `name` and returns the id it was registered under, if any.
    pub fn remove_name(&mut self, name: &String) -> (id: Option<u32>)
        ensures
            id == id_for_name(old(self)@, name@),
            id matches Some(k) ==> final(self)@ == old(self)@.remove(k),
            id is None ==> final(self)@ == old(self)@,
            final(self)@.is_injective(),
    {
        proof {
            use_type_invariant(&*self);
            lemma_map_injective(self.entry_views());
        }
        let ghost before = self.entry_views();
        assert(old(self)@ == entries_map(before));
        let mut i: usize = 0;
        while i < self.entries.len()
            invariant
                0 <= i <= self.entries@.len(),
                self.entry_views() == before,
                old(self)@ == entries_map(before),
                ids_distinct(before),
                names_distinct(before),
                self@.is_injective(),
                forall|j: int| 0 <= j < i ==> #[trigger] before[j].1 != name@,
            decreases self.entries@.len() - i,
        {
            if self.entries[i].1 == *name {
                let ghost key = before[i as int].0;
                proof {
                    lemma_entry_in_map(before, i as int);
                    lemma_id_for_name_is_key(entries_map(before), key);
                    lemma_remove(before, i as int);
                    before.remove_ensures(i as int);
                    let t = before.remove(i as int);
                    assert forall|a: int, b: int| 0 <= a < t.len() && 0 <= b < t.len() && a != b implies #[trigger] t[a].1 != #[trigger] t[b].1 by {
                        let a2 = if a < i { a } else { a + 1 };
                        let b2 = if b < i { b } else { b + 1 };
                        assert(t[a] == before[a2]);
                        assert(t[b] == before[b2]);
                    }
                }
                let mut entries = Vec::new();
                std::mem::swap(&mut entries, &mut self.entries);
                let removed = entries.remove(i);
                proof {
                    let after = entries@.map_values(|e: (u32, String)| (e.0, e.1@));
                    assert(after =~= before.remove(i as int));
                    lemma_map_injective(after);
                    assert(removed.0 == key);
                }
                self.entries = entries;
                return Some(removed.0);
            }
            i = i + 1;
        }
        proof {
            if self@.contains_value(name@) {
                let id = choose|id: u32| #[trigger] self@.dom().contains(id) && self@[id] == name@;
                lemma_key_has_entry(before, id);
            }
        }
        None
    }
}

impl View for NameRegistry {
    type V = Map<u32, Seq<char>>;

    closed spec fn view(&self) -> Map<u32, Seq<char>> {
        self.as_map()
    }
}

} // verus!
