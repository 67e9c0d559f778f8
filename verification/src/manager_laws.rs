//! What holds of the worker across commands and records.
use crate::registry::{id_for_name, lemma_id_for_name_is_key};
use crate::simconnect_ffi::{lemma_word_at, period_for_fps, words_le};
use crate::simconnect_manager::{
    command_fits, command_step, dispatch_step, state_well_formed, CommandOutcomeView,
    DispatchOutcomeView, ManagerState, Received, SimActionView, SimCommand, received_from,
};
use vstd::prelude::*;

verus! {

/// The id found for a name is registered under that name.
pub proof fn lemma_id_for_name_found(m: Map<u32, Seq<char>>, name: Seq<char>)
    ensures
        id_for_name(m, name) is Some <==> m.contains_value(name),
        id_for_name(m, name) matches Some(id) ==> m.contains_key(id) && m[id] == name,
{
    if m.contains_value(name) {
        let id = choose|id: u32| #[trigger] m.dom().contains(id) && m[id] == name;
        assert(m.dom().contains(id) && m[id] == name);
    }
}

proof fn lemma_insert_injective(m: Map<u32, Seq<char>>, id: u32, name: Seq<char>)
    requires
        m.is_injective(),
        !m.contains_value(name),
    ensures
        m.insert(id, name).is_injective(),
{
    let n = m.insert(id, name);
    assert forall|x: u32, y: u32| x != y && n.dom().contains(x) && n.dom().contains(y) implies #[trigger] n[x] != #[trigger] n[y] by {
        if x != id && y != id {
            assert(n[x] == m[x] && n[y] == m[y]);
        } else if x == id {
            assert(m.dom().contains(y) && n[y] == m[y]);
        } else {
            assert(m.dom().contains(x) && n[x] == m[x]);
        }
    }
}

proof fn lemma_remove_injective(m: Map<u32, Seq<char>>, id: u32)
    requires
        m.is_injective(),
    ensures
        m.remove(id).is_injective(),
{
    let n = m.remove(id);
    assert forall|x: u32, y: u32| x != y && n.dom().contains(x) && n.dom().contains(y) implies #[trigger] n[x] != #[trigger] n[y] by {
        assert(n[x] == m[x] && n[y] == m[y]);
    }
}

/// Every command keeps the worker's memory well formed.
pub proof fn lemma_command_keeps_well_formed(s: ManagerState, cmd: SimCommand)
    requires
        state_well_formed(s),
        command_fits(s, cmd),
    ensures
        state_well_formed(command_step(s, cmd).0),
{
    match cmd {
        SimCommand::SubscribeVariable { name, .. } => {
            if !s.variables.contains_value(name@) {
                lemma_insert_injective(s.variables, s.next_define_id, name@);
            }
        },
        SimCommand::UnsubscribeVariable { name } => {
            lemma_id_for_name_found(s.variables, name@);
            if let Some(id) = id_for_name(s.variables, name@) {
                lemma_remove_injective(s.variables, id);
            }
        },
        SimCommand::SubscribeEvent { event_name } => {
            if !s.events.contains_value(event_name@) {
                lemma_insert_injective(s.events, s.next_event_id, event_name@);
            }
        },
        SimCommand::TransmitEvent { event_name, .. } => {
            lemma_id_for_name_found(s.events, event_name@);
            if !s.events.contains_value(event_name@) {
                lemma_insert_injective(s.events, s.next_event_id, event_name@);
            }
        },
        _ => {},
    }
}

/// Every dispatched record keeps the worker's memory well formed.
pub proof fn lemma_dispatch_keeps_well_formed(s: ManagerState, r: Received)
    requires
        state_well_formed(s),
    ensures
        state_well_formed(dispatch_step(s, r).0),
{
}

/// Ids are never handed out twice: the next free ids never go back, and
/// every id in use lies below them (`state_well_formed`), so each new id is
/// one that was not in use.
pub proof fn lemma_ids_never_reused(s: ManagerState, cmd: SimCommand, r: Received)
    requires
        state_well_formed(s),
        command_fits(s, cmd),
    ensures
        command_step(s, cmd).0.next_define_id >= s.next_define_id,
        command_step(s, cmd).0.next_event_id >= s.next_event_id,
        dispatch_step(s, r).0.next_define_id == s.next_define_id,
        dispatch_step(s, r).0.next_event_id == s.next_event_id,
{
}

/// Subscribing to a variable that is already subscribed changes nothing and
/// makes no call, whatever unit and rate are asked for the second time.
pub proof fn lemma_subscribe_is_idempotent(
    s: ManagerState,
    name: String,
    unit: String,
    fps: i32,
    unit2: String,
    fps2: i32,
)
    requires
        state_well_formed(s),
        command_fits(s, SimCommand::SubscribeVariable { name, unit, fps }),
    ensures
        ({
            let first = command_step(s, SimCommand::SubscribeVariable { name, unit, fps }).0;
            command_step(first, SimCommand::SubscribeVariable { name, unit: unit2, fps: fps2 })
                == (first, CommandOutcomeView::Perform(seq![]))
        }),
{
    let first = command_step(s, SimCommand::SubscribeVariable { name, unit, fps }).0;
    if !s.variables.contains_value(name@) {
        assert(first.variables.contains_key(s.next_define_id));
        assert(first.variables[s.next_define_id] == name@);
    }
    assert(first.variables.contains_value(name@));
}

/// Subscribing to a variable defines it under a fresh id and asks for it at
/// the rate's period; the values that then arrive for that id are reported
/// under the variable's name, and unsubscribing clears that definition and
/// forgets the name again.
pub proof fn lemma_subscribe_report_unsubscribe(
    s: ManagerState,
    name: String,
    unit: String,
    fps: i32,
    value_bits: u64,
)
    requires
        state_well_formed(s),
        !s.variables.contains_value(name@),
        s.next_define_id < u32::MAX,
    ensures
        ({
            let id = s.next_define_id;
            let (subscribed, out) = command_step(s, SimCommand::SubscribeVariable { name, unit, fps });
            &&& !s.variables.contains_key(id)
            &&& !s.pending.contains(id)
            &&& out == CommandOutcomeView::Perform(
                seq![
                    SimActionView::AddToDataDefinition {
                        define_id: id,
                        datum_name: name@,
                        units_name: unit@,
                        datum_type: 4,
                        datum_id: 0xFFFF_FFFF,
                    },
                    SimActionView::RequestDataOnSimObject {
                        request_id: id,
                        define_id: id,
                        object_id: 0,
                        period: period_for_fps(fps),
                        flags: 0,
                        origin: 0,
                        interval: 0,
                        limit: 0,
                    },
                ],
            )
            &&& dispatch_step(subscribed, Received::SimObjectData { define_id: id, value_bits })
                == (subscribed, DispatchOutcomeView::EmitVariable { name: name@, value_bits })
            &&& command_step(subscribed, SimCommand::UnsubscribeVariable { name }) == (
                ManagerState { variables: s.variables, ..subscribed },
                CommandOutcomeView::Perform(seq![SimActionView::ClearDataDefinition { define_id: id }]),
            )
        }),
{
    let id = s.next_define_id;
    let subscribed = command_step(s, SimCommand::SubscribeVariable { name, unit, fps }).0;
    assert(subscribed.variables.contains_key(id));
    assert(subscribed.variables[id] == name@);
    lemma_insert_injective(s.variables, id, name@);
    lemma_id_for_name_is_key(subscribed.variables, id);
    assert(subscribed.variables.remove(id) =~= s.variables);
}

/// A one-shot read waits on a fresh id; the first value that arrives for it
/// is handed back once, with the definition cleared, and a later value for
/// the same id is no longer handed back.
pub proof fn lemma_get_variable_replied_once(
    s: ManagerState,
    name: String,
    unit: String,
    value_bits: u64,
    later_bits: u64,
)
    requires
        state_well_formed(s),
        s.next_define_id < u32::MAX,
    ensures
        ({
            let id = s.next_define_id;
            let (waiting, out) = command_step(s, SimCommand::GetVariable { name, unit });
            let (answered, reply) = dispatch_step(waiting, Received::SimObjectData { define_id: id, value_bits });
            &&& out == CommandOutcomeView::AwaitReply {
                define_id: id,
                actions: seq![
                    SimActionView::AddToDataDefinition {
                        define_id: id,
                        datum_name: name@,
                        units_name: unit@,
                        datum_type: 4,
                        datum_id: 0xFFFF_FFFF,
                    },
                    SimActionView::RequestDataOnSimObject {
                        request_id: id,
                        define_id: id,
                        object_id: 0,
                        period: 1,
                        flags: 0,
                        origin: 0,
                        interval: 0,
                        limit: 0,
                    },
                ],
            }
            &&& reply == DispatchOutcomeView::Reply {
                define_id: id,
                value_bits,
                actions: seq![SimActionView::ClearDataDefinition { define_id: id }],
            }
            &&& answered.pending == s.pending
            &&& dispatch_step(answered, Received::SimObjectData { define_id: id, value_bits: later_bits })
                == (answered, DispatchOutcomeView::Ignore)
        }),
{
    let id = s.next_define_id;
    let waiting = command_step(s, SimCommand::GetVariable { name, unit }).0;
    assert(waiting.pending.contains(id));
    assert(waiting.pending.remove(id) =~= s.pending);
}

/// Once a client event is subscribed, transmitting it goes out under the
/// same id with nothing remembered anew, and its occurrences are reported
/// under its name.
pub proof fn lemma_subscribed_event_round_trip(s: ManagerState, event_name: String, data: u32, seen: u32)
    requires
        state_well_formed(s),
        !s.events.contains_value(event_name@),
        s.next_event_id < u32::MAX,
    ensures
        ({
            let id = s.next_event_id;
            let subscribed = command_step(s, SimCommand::SubscribeEvent { event_name }).0;
            &&& command_step(subscribed, SimCommand::TransmitEvent { event_name, data })
                == (
                    subscribed,
                    CommandOutcomeView::Perform(
                        seq![
                            SimActionView::TransmitClientEvent {
                                object_id: 0,
                                event_id: id,
                                data,
                                group_id: 1,
                                flags: 16,
                            },
                        ],
                    ),
                )
            &&& dispatch_step(subscribed, Received::Event { event_id: id, data: seen })
                == (subscribed, DispatchOutcomeView::EmitEvent { name: event_name@, data: seen })
        }),
{
    let id = s.next_event_id;
    let subscribed = command_step(s, SimCommand::SubscribeEvent { event_name }).0;
    assert(subscribed.events.contains_key(id));
    assert(subscribed.events[id] == event_name@);
    lemma_insert_injective(s.events, id, event_name@);
    lemma_id_for_name_is_key(subscribed.events, id);
}

/// Subscribing to a variable not yet subscribed defines it as a single `f64`
/// datum under the next data-definition id, asks for that definition of the
/// user aircraft under the same request id at the rate's period, and
/// remembers the name under that id, leaving the events and the one-shot
/// reads alone; a variable already subscribed is left alone.
pub proof fn lemma_subscribe_variable_calls(s: ManagerState, name: String, unit: String, fps: i32)
    requires
        state_well_formed(s),
        command_fits(s, SimCommand::SubscribeVariable { name, unit, fps }),
    ensures
        ({
            let id = s.next_define_id;
            let (after, out) = command_step(s, SimCommand::SubscribeVariable { name, unit, fps });
            if s.variables.contains_value(name@) {
                after == s && out == CommandOutcomeView::Perform(seq![])
            } else {
                &&& out == CommandOutcomeView::Perform(
                    seq![
                        SimActionView::AddToDataDefinition {
                            define_id: id,
                            datum_name: name@,
                            units_name: unit@,
                            datum_type: 4,
                            datum_id: 0xFFFF_FFFF,
                        },
                        SimActionView::RequestDataOnSimObject {
                            request_id: id,
                            define_id: id,
                            object_id: 0,
                            period: period_for_fps(fps),
                            flags: 0,
                            origin: 0,
                            interval: 0,
                            limit: 0,
                        },
                    ],
                )
                &&& after.variables.contains_key(id)
                &&& after.variables[id] == name@
                &&& after.variables == s.variables.insert(id, name@)
                &&& after.next_define_id == id + 1
                &&& after.next_event_id == s.next_event_id
                &&& after.events == s.events
                &&& after.pending == s.pending
            }
        }),
{
}

/// Unsubscribing the name registered under `id` clears definition `id` and
/// forgets exactly that entry; unsubscribing a name that is not registered
/// changes nothing and makes no call.
pub proof fn lemma_unsubscribe_variable_calls(s: ManagerState, name: String, id: u32)
    requires
        state_well_formed(s),
    ensures
        s.variables.contains_key(id) && s.variables[id] == name@ ==> command_step(
            s,
            SimCommand::UnsubscribeVariable { name },
        ) == (
            ManagerState { variables: s.variables.remove(id), ..s },
            CommandOutcomeView::Perform(seq![SimActionView::ClearDataDefinition { define_id: id }]),
        ),
        !s.variables.contains_value(name@) ==> command_step(s, SimCommand::UnsubscribeVariable { name })
            == (s, CommandOutcomeView::Perform(seq![])),
{
    if s.variables.contains_key(id) && s.variables[id] == name@ {
        lemma_id_for_name_is_key(s.variables, id);
    }
}

/// A one-shot read defines the variable under the next data-definition id,
/// asks for it once under the same request id, and waits on that id.
pub proof fn lemma_get_variable_calls(s: ManagerState, name: String, unit: String)
    requires
        state_well_formed(s),
        s.next_define_id < u32::MAX,
    ensures
        ({
            let id = s.next_define_id;
            let (after, out) = command_step(s, SimCommand::GetVariable { name, unit });
            &&& out == CommandOutcomeView::AwaitReply {
                define_id: id,
                actions: seq![
                    SimActionView::AddToDataDefinition {
                        define_id: id,
                        datum_name: name@,
                        units_name: unit@,
                        datum_type: 4,
                        datum_id: 0xFFFF_FFFF,
                    },
                    SimActionView::RequestDataOnSimObject {
                        request_id: id,
                        define_id: id,
                        object_id: 0,
                        period: 1,
                        flags: 0,
                        origin: 0,
                        interval: 0,
                        limit: 0,
                    },
                ],
            }
            &&& after.pending == s.pending.insert(id)
            &&& after.next_define_id == id + 1
            &&& after.variables == s.variables
            &&& after.events == s.events
            &&& after.next_event_id == s.next_event_id
        }),
{
}

/// Subscribing to a client event not yet known maps it under the next event
/// id, adds that same id to notification group 0 as not maskable, gives the
/// group the highest priority, and remembers the name under that id; an
/// event already known is left alone.
pub proof fn lemma_subscribe_event_calls(s: ManagerState, event_name: String)
    requires
        state_well_formed(s),
        command_fits(s, SimCommand::SubscribeEvent { event_name }),
    ensures
        ({
            let id = s.next_event_id;
            let (after, out) = command_step(s, SimCommand::SubscribeEvent { event_name });
            if s.events.contains_value(event_name@) {
                after == s && out == CommandOutcomeView::Perform(seq![])
            } else {
                &&& out == CommandOutcomeView::Perform(
                    seq![
                        SimActionView::MapClientEventToSimEvent { event_id: id, event_name: event_name@ },
                        SimActionView::AddClientEventToNotificationGroup {
                            group_id: 0,
                            event_id: id,
                            maskable: 0,
                        },
                        SimActionView::SetNotificationGroupPriority { group_id: 0, priority: 1 },
                    ],
                )
                &&& after.events.contains_key(id)
                &&& after.events[id] == event_name@
                &&& after.events == s.events.insert(id, event_name@)
                &&& after.next_event_id == id + 1
                &&& after.next_define_id == s.next_define_id
                &&& after.variables == s.variables
                &&& after.pending == s.pending
            }
        }),
{
}

/// Transmitting a client event known under `id` sends it to the user
/// aircraft under `id` at the highest priority, with nothing remembered
/// anew; transmitting one not yet known first maps it under the next event
/// id, remembers it there, and sends it under that same id.
pub proof fn lemma_transmit_event_calls(s: ManagerState, event_name: String, data: u32, id: u32)
    requires
        state_well_formed(s),
        command_fits(s, SimCommand::TransmitEvent { event_name, data }),
    ensures
        s.events.contains_key(id) && s.events[id] == event_name@ ==> command_step(
            s,
            SimCommand::TransmitEvent { event_name, data },
        ) == (
            s,
            CommandOutcomeView::Perform(
                seq![
                    SimActionView::TransmitClientEvent {
                        object_id: 0,
                        event_id: id,
                        data,
                        group_id: 1,
                        flags: 16,
                    },
                ],
            ),
        ),
        !s.events.contains_value(event_name@) ==> ({
            let fresh = s.next_event_id;
            let (after, out) = command_step(s, SimCommand::TransmitEvent { event_name, data });
            &&& out == CommandOutcomeView::Perform(
                seq![
                    SimActionView::MapClientEventToSimEvent { event_id: fresh, event_name: event_name@ },
                    SimActionView::TransmitClientEvent {
                        object_id: 0,
                        event_id: fresh,
                        data,
                        group_id: 1,
                        flags: 16,
                    },
                ],
            )
            &&& after.events == s.events.insert(fresh, event_name@)
            &&& after.next_event_id == fresh + 1
            &&& after.next_define_id == s.next_define_id
            &&& after.variables == s.variables
            &&& after.pending == s.pending
        }),
{
    lemma_id_for_name_found(s.events, event_name@);
    if s.events.contains_key(id) && s.events[id] == event_name@ {
        lemma_id_for_name_is_key(s.events, id);
    }
}

/// A data record for a definition that a one-shot read waits on hands the
/// value back under that id, clears the definition and stops waiting on it,
/// whichever of the waiting reads it is; one for a subscribed variable is
/// reported under the variable's name; any other is ignored.  None of them
/// changes anything else.
pub proof fn lemma_data_record_outcome(s: ManagerState, define_id: u32, value_bits: u64)
    requires
        state_well_formed(s),
    ensures
        s.pending.contains(define_id) ==> dispatch_step(s, Received::SimObjectData { define_id, value_bits })
            == (
            ManagerState { pending: s.pending.remove(define_id), ..s },
            DispatchOutcomeView::Reply {
                define_id,
                value_bits,
                actions: seq![SimActionView::ClearDataDefinition { define_id }],
            },
        ),
        s.variables.contains_key(define_id) ==> dispatch_step(
            s,
            Received::SimObjectData { define_id, value_bits },
        ) == (s, DispatchOutcomeView::EmitVariable { name: s.variables[define_id], value_bits }),
        !s.pending.contains(define_id) && !s.variables.contains_key(define_id) ==> dispatch_step(
            s,
            Received::SimObjectData { define_id, value_bits },
        ) == (s, DispatchOutcomeView::Ignore),
{
}

/// An occurrence of any client event known under `event_id` is reported
/// under its name with its data, whenever it was mapped; one of an unknown
/// id is ignored.  Neither changes anything.
pub proof fn lemma_event_record_outcome(s: ManagerState, event_id: u32, data: u32)
    requires
        state_well_formed(s),
    ensures
        s.events.contains_key(event_id) ==> dispatch_step(s, Received::Event { event_id, data }) == (
            s,
            DispatchOutcomeView::EmitEvent { name: s.events[event_id], data },
        ),
        !s.events.contains_key(event_id) ==> dispatch_step(s, Received::Event { event_id, data }) == (
            s,
            DispatchOutcomeView::Ignore,
        ),
{
}

/// A disconnect stops the worker and a quit record ends the session, both
/// with nothing changed; every other record is ignored.
pub proof fn lemma_stop_quit_other(s: ManagerState)
    ensures
        command_step(s, SimCommand::Disconnect) == (s, CommandOutcomeView::Stop),
        dispatch_step(s, Received::Quit) == (s, DispatchOutcomeView::Quit),
        dispatch_step(s, Received::Other) == (s, DispatchOutcomeView::Ignore),
{
}

/// Decoding a dispatched record laid out as `DWORD` words: the third word is
/// the record's kind.  An object-data record (kind 8) of at least twelve
/// words gives its sixth word as the definition id and its eleventh and
/// twelfth as the low and high halves of the value; an event record (kind 4)
/// of at least six words gives its fifth word as the event id and its sixth
/// as the data; kind 3 is a quit; every other kind is ignored.
pub proof fn lemma_decoded_records(w: Seq<u32>)
    ensures
        w.len() >= 12 && w[2] == 8 ==> received_from(words_le(w)) == (Received::SimObjectData {
            define_id: w[5],
            value_bits: (w[10] + 4294967296 * w[11]) as u64,
        }),
        w.len() >= 6 && w[2] == 4 ==> received_from(words_le(w)) == (Received::Event {
            event_id: w[4],
            data: w[5],
        }),
        w.len() >= 3 && w[2] == 3 ==> received_from(words_le(w)) == Received::Quit,
        w.len() >= 3 && w[2] != 3 && w[2] != 4 && w[2] != 8 ==> received_from(words_le(w))
            == Received::Other,
{
    if w.len() >= 3 {
        lemma_word_at(w, 2);
    }
    if w.len() >= 6 {
        lemma_word_at(w, 4);
        lemma_word_at(w, 5);
    }
    if w.len() >= 12 {
        lemma_word_at(w, 10);
        lemma_word_at(w, 11);
    }
}

} // verus!
