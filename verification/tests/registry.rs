use jett_studio::registry::NameRegistry;

fn s(x: &str) -> String {
    x.to_string()
}

#[test]
fn empty_registry_knows_nothing() {
    let registry = NameRegistry::new();
    assert_eq!(registry.id_of(&s("A")), None);
    assert_eq!(registry.name_of(1), None);
    assert!(!registry.contains_id(1));
}

#[test]
fn lookup_both_ways() {
    let mut registry = NameRegistry::new();
    registry.insert(1, s("PLANE ALTITUDE"));
    registry.insert(4, s("AIRSPEED INDICATED"));
    assert_eq!(registry.id_of(&s("PLANE ALTITUDE")), Some(1));
    assert_eq!(registry.id_of(&s("AIRSPEED INDICATED")), Some(4));
    assert_eq!(registry.name_of(4), Some(s("AIRSPEED INDICATED")));
    assert_eq!(registry.name_of(1), Some(s("PLANE ALTITUDE")));
    assert_eq!(registry.name_of(2), None);
    assert!(registry.contains_id(4));
    assert!(!registry.contains_id(2));
}

#[test]
fn remove_by_name() {
    let mut registry = NameRegistry::new();
    registry.insert(1, s("A"));
    registry.insert(2, s("B"));
    registry.insert(3, s("C"));
    assert_eq!(registry.remove_name(&s("B")), Some(2));
    assert_eq!(registry.remove_name(&s("B")), None);
    assert_eq!(registry.id_of(&s("B")), None);
    assert_eq!(registry.name_of(2), None);
    assert_eq!(registry.id_of(&s("C")), Some(3));
    assert_eq!(registry.name_of(1), Some(s("A")));
}

#[test]
fn remove_unknown_name_changes_nothing() {
    let mut registry = NameRegistry::new();
    registry.insert(9, s("X"));
    assert_eq!(registry.remove_name(&s("Y")), None);
    assert_eq!(registry.id_of(&s("X")), Some(9));
}
