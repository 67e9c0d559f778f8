use jett_studio::simconnect_manager::{
    decode_dispatch, to_cstring_bytes, CommandOutcome, DispatchOutcome, Received, SimAction,
    SimCommand, SimManager, EVENT_GROUP_ID,
};

fn s(x: &str) -> String {
    x.to_string()
}

fn le(words: &[u32]) -> Vec<u8> {
    let mut out = Vec::new();
    for w in words {
        out.extend_from_slice(&w.to_le_bytes());
    }
    out
}

fn data_record(define_id: u32, value: f64) -> Vec<u8> {
    let mut bytes = le(&[48, 1, 8, define_id, 0, define_id, 0, 1, 1, 1]);
    bytes.extend_from_slice(&value.to_le_bytes());
    bytes
}

fn event_record(event_id: u32, data: u32) -> Vec<u8> {
    le(&[24, 1, 4, 0, event_id, data])
}

fn subscribe(name: &str, unit: &str, fps: i32) -> SimCommand {
    SimCommand::SubscribeVariable { name: s(name), unit: s(unit), fps }
}

fn define(define_id: u32, name: &str, unit: &str) -> SimAction {
    SimAction::AddToDataDefinition {
        define_id,
        datum_name: s(name),
        units_name: s(unit),
        datum_type: 4,
        datum_id: 0xFFFF_FFFF,
    }
}

fn request(define_id: u32, period: i32) -> SimAction {
    SimAction::RequestDataOnSimObject {
        request_id: define_id,
        define_id,
        object_id: 0,
        period,
        flags: 0,
        origin: 0,
        interval: 0,
        limit: 0,
    }
}

fn transmit(event_id: u32, data: u32) -> SimAction {
    SimAction::TransmitClientEvent { object_id: 0, event_id, data, group_id: 1, flags: 16 }
}

#[test]
fn nul_becomes_question_mark() {
    assert_eq!(to_cstring_bytes("a\0b\0"), b"a?b?".to_vec());
    assert_eq!(to_cstring_bytes("JETT Studio"), b"JETT Studio".to_vec());
    assert_eq!(to_cstring_bytes(""), Vec::<u8>::new());
    assert_eq!(to_cstring_bytes("é\0"), "é?".as_bytes().to_vec());
}

#[test]
fn decodes_data_record() {
    let bytes = data_record(3, 1234.5);
    assert_eq!(
        decode_dispatch(&bytes),
        Received::SimObjectData { define_id: 3, value_bits: 1234.5f64.to_bits() }
    );
}

#[test]
fn short_data_record_is_ignored() {
    let bytes = data_record(3, 1.0);
    assert_eq!(decode_dispatch(&bytes[..47]), Received::Other);
    assert_eq!(decode_dispatch(&bytes[..11]), Received::Other);
}

#[test]
fn decodes_event_quit_and_others() {
    assert_eq!(decode_dispatch(&event_record(2, 77)), Received::Event { event_id: 2, data: 77 });
    assert_eq!(decode_dispatch(&le(&[12, 1, 3])), Received::Quit);
    assert_eq!(decode_dispatch(&le(&[12, 1, 2])), Received::Other);
    assert_eq!(decode_dispatch(&le(&[24, 1, 1, 0, 0, 0])), Received::Other);
    assert_eq!(decode_dispatch(&le(&[20, 1, 4, 0, 2])), Received::Other);
}

#[test]
fn subscribe_defines_and_requests() {
    let mut m = SimManager::new();
    let out = m.handle_command(subscribe("PLANE ALTITUDE", "feet", 1));
    assert_eq!(
        out,
        CommandOutcome::Perform(vec![define(1, "PLANE ALTITUDE", "feet"), request(1, 4)])
    );
    let out = m.handle_command(subscribe("AIRSPEED INDICATED", "knots", -1));
    assert_eq!(
        out,
        CommandOutcome::Perform(vec![define(2, "AIRSPEED INDICATED", "knots"), request(2, 3)])
    );
    let out = m.handle_command(subscribe("HEADING", "degrees", 30));
    assert_eq!(out, CommandOutcome::Perform(vec![define(3, "HEADING", "degrees"), request(3, 2)]));
}

#[test]
fn subscribing_twice_does_nothing() {
    let mut m = SimManager::new();
    m.handle_command(subscribe("PLANE ALTITUDE", "feet", 1));
    let out = m.handle_command(subscribe("PLANE ALTITUDE", "meters", 60));
    assert_eq!(out, CommandOutcome::Perform(vec![]));
    let out = m.handle_command(subscribe("HEADING", "degrees", 1));
    assert_eq!(out, CommandOutcome::Perform(vec![define(2, "HEADING", "degrees"), request(2, 4)]));
}

#[test]
fn subscribed_values_are_reported_by_name() {
    let mut m = SimManager::new();
    m.handle_command(subscribe("PLANE ALTITUDE", "feet", 1));
    let out = m.handle_dispatch(decode_dispatch(&data_record(1, 3500.0)));
    assert_eq!(
        out,
        DispatchOutcome::EmitVariable { name: s("PLANE ALTITUDE"), value_bits: 3500.0f64.to_bits() }
    );
    let out = m.handle_dispatch(decode_dispatch(&data_record(9, 1.0)));
    assert_eq!(out, DispatchOutcome::Ignore);
}

#[test]
fn unsubscribe_clears_definition() {
    let mut m = SimManager::new();
    m.handle_command(subscribe("A", "feet", 1));
    m.handle_command(subscribe("B", "feet", 1));
    let out = m.handle_command(SimCommand::UnsubscribeVariable { name: s("A") });
    assert_eq!(out, CommandOutcome::Perform(vec![SimAction::ClearDataDefinition { define_id: 1 }]));
    assert_eq!(m.handle_dispatch(Received::SimObjectData { define_id: 1, value_bits: 0 }), DispatchOutcome::Ignore);
    let out = m.handle_command(SimCommand::UnsubscribeVariable { name: s("A") });
    assert_eq!(out, CommandOutcome::Perform(vec![]));
    // a new subscription of the same name gets a new id
    let out = m.handle_command(subscribe("A", "feet", 1));
    assert_eq!(out, CommandOutcome::Perform(vec![define(3, "A", "feet"), request(3, 4)]));
}

#[test]
fn one_shot_read_is_answered_once() {
    let mut m = SimManager::new();
    let out = m.handle_command(SimCommand::GetVariable { name: s("FUEL TOTAL QUANTITY"), unit: s("gallons") });
    assert_eq!(
        out,
        CommandOutcome::AwaitReply {
            define_id: 1,
            actions: vec![define(1, "FUEL TOTAL QUANTITY", "gallons"), request(1, 1)],
        }
    );
    let out = m.handle_dispatch(decode_dispatch(&data_record(1, 42.25)));
    assert_eq!(
        out,
        DispatchOutcome::Reply {
            define_id: 1,
            value_bits: 42.25f64.to_bits(),
            actions: vec![SimAction::ClearDataDefinition { define_id: 1 }],
        }
    );
    let out = m.handle_dispatch(decode_dispatch(&data_record(1, 42.25)));
    assert_eq!(out, DispatchOutcome::Ignore);
}

#[test]
fn one_shot_read_of_subscribed_name_uses_its_own_id() {
    let mut m = SimManager::new();
    m.handle_command(subscribe("A", "feet", 1));
    let out = m.handle_command(SimCommand::GetVariable { name: s("A"), unit: s("feet") });
    assert_eq!(out, CommandOutcome::AwaitReply { define_id: 2, actions: vec![define(2, "A", "feet"), request(2, 1)] });
    assert_eq!(
        m.handle_dispatch(Received::SimObjectData { define_id: 1, value_bits: 5 }),
        DispatchOutcome::EmitVariable { name: s("A"), value_bits: 5 }
    );
    assert_eq!(
        m.handle_dispatch(Received::SimObjectData { define_id: 2, value_bits: 6 }),
        DispatchOutcome::Reply { define_id: 2, value_bits: 6, actions: vec![SimAction::ClearDataDefinition { define_id: 2 }] }
    );
}

#[test]
fn subscribe_event_maps_and_groups() {
    let mut m = SimManager::new();
    let out = m.handle_command(SimCommand::SubscribeEvent { event_name: s("BRAKES") });
    assert_eq!(
        out,
        CommandOutcome::Perform(vec![
            SimAction::MapClientEventToSimEvent { event_id: 1, event_name: s("BRAKES") },
            SimAction::AddClientEventToNotificationGroup { group_id: EVENT_GROUP_ID, event_id: 1, maskable: 0 },
            SimAction::SetNotificationGroupPriority { group_id: 0, priority: 1 },
        ])
    );
    let out = m.handle_command(SimCommand::SubscribeEvent { event_name: s("BRAKES") });
    assert_eq!(out, CommandOutcome::Perform(vec![]));
    let out = m.handle_dispatch(decode_dispatch(&event_record(1, 9)));
    assert_eq!(out, DispatchOutcome::EmitEvent { name: s("BRAKES"), data: 9 });
    assert_eq!(m.handle_dispatch(Received::Event { event_id: 2, data: 0 }), DispatchOutcome::Ignore);
}

#[test]
fn transmit_reuses_known_event_id() {
    let mut m = SimManager::new();
    m.handle_command(SimCommand::SubscribeEvent { event_name: s("GEAR_TOGGLE") });
    let out = m.handle_command(SimCommand::TransmitEvent { event_name: s("GEAR_TOGGLE"), data: 0 });
    assert_eq!(out, CommandOutcome::Perform(vec![transmit(1, 0)]));
}

#[test]
fn transmit_of_new_event_maps_it_first() {
    let mut m = SimManager::new();
    let out = m.handle_command(SimCommand::TransmitEvent { event_name: s("PARKING_BRAKES"), data: 1 });
    assert_eq!(
        out,
        CommandOutcome::Perform(vec![
            SimAction::MapClientEventToSimEvent { event_id: 1, event_name: s("PARKING_BRAKES") },
            transmit(1, 1),
        ])
    );
    let out = m.handle_command(SimCommand::TransmitEvent { event_name: s("PARKING_BRAKES"), data: 2 });
    assert_eq!(out, CommandOutcome::Perform(vec![transmit(1, 2)]));
    // the event is known now, so subscribing to it does nothing more
    let out = m.handle_command(SimCommand::SubscribeEvent { event_name: s("PARKING_BRAKES") });
    assert_eq!(out, CommandOutcome::Perform(vec![]));
    // and its occurrences are reported
    assert_eq!(
        m.handle_dispatch(Received::Event { event_id: 1, data: 3 }),
        DispatchOutcome::EmitEvent { name: s("PARKING_BRAKES"), data: 3 }
    );
}

#[test]
fn variable_and_event_ids_are_separate() {
    let mut m = SimManager::new();
    m.handle_command(subscribe("A", "feet", 1));
    let out = m.handle_command(SimCommand::SubscribeEvent { event_name: s("E") });
    match out {
        CommandOutcome::Perform(actions) => {
            assert_eq!(actions[0], SimAction::MapClientEventToSimEvent { event_id: 1, event_name: s("E") })
        },
        other => panic!("unexpected {:?}", other),
    }
}

#[test]
fn disconnect_and_quit_stop() {
    let mut m = SimManager::new();
    assert_eq!(m.handle_command(SimCommand::Disconnect), CommandOutcome::Stop);
    assert_eq!(m.handle_dispatch(decode_dispatch(&le(&[12, 1, 3]))), DispatchOutcome::Quit);
    assert_eq!(m.handle_dispatch(Received::Other), DispatchOutcome::Ignore);
}

#[test]
fn fresh_manager_accepts_every_command() {
    let m = SimManager::new();
    assert!(m.accepts(&subscribe("A", "feet", 1)));
    assert!(m.accepts(&SimCommand::GetVariable { name: s("A"), unit: s("feet") }));
    assert!(m.accepts(&SimCommand::TransmitEvent { event_name: s("E"), data: 0 }));
    assert!(m.accepts(&SimCommand::Disconnect));
}
