//! The decisions of the SimConnect worker.
//!
//! The worker receives commands from the front end and records from
//! SimConnect.  [`SimManager`] holds what it remembers between them (the next
//! free ids, the subscribed variables and events, the one-shot reads still
//! waiting for their value) and turns each command into the SimConnect calls
//! to make and each record into what to report.  The shell performs the calls
//! and sends the reports.
use crate::registry::{id_for_name, NameRegistry};
use crate::simconnect_ffi::{
    fps_to_period,
    le_u32, le_u64, period_for_fps, read_u64_le, BOOL, DWORD, RECV_EVENT_SIZE, RECV_HEADER_SIZE,
    SIMCONNECT_CLIENT_EVENT_ID, SIMCONNECT_DATATYPE, SIMCONNECT_DATATYPE_FLOAT64,
    SIMCONNECT_DATA_DEFINITION_ID, SIMCONNECT_DATA_REQUEST_ID,
    SIMCONNECT_EVENT_FLAG_GROUPID_IS_PRIORITY, SIMCONNECT_GROUP_PRIORITY_HIGHEST,
    SIMCONNECT_NOTIFICATION_GROUP_ID, SIMCONNECT_OBJECT_ID, SIMCONNECT_OBJECT_ID_USER,
    SIMCONNECT_PERIOD, SIMCONNECT_PERIOD_ONCE, SIMCONNECT_RECV, SIMCONNECT_RECV_EVENT,
    SIMCONNECT_RECV_ID_EVENT, SIMCONNECT_RECV_ID_QUIT, SIMCONNECT_RECV_ID_SIMOBJECT_DATA,
    SIMCONNECT_RECV_SIMOBJECT_DATA, SIMCONNECT_UNUSED, SIMOBJECT_DATA_OFFSET,
};
use std::collections::HashSet;
use vstd::prelude::*;
use vstd::string::StringSliceAdditionalSpecFns;

verus! {

broadcast use vstd::std_specs::hash::group_hash_axioms;

/// The notification group that subscribed client events are added to.
pub const EVENT_GROUP_ID: SIMCONNECT_NOTIFICATION_GROUP_ID = 0;

/// A command for the SimConnect worker.
#[derive(Debug, Clone, PartialEq, Eq)]
pub enum SimCommand {
    /// Keep `name` (in `unit`) updated at `fps` updates per second.
    SubscribeVariable { name: String, unit: String, fps: i32 },
    /// Stop reporting `name`.
    UnsubscribeVariable { name: String },
    /// Read `name` (in `unit`) once.
    GetVariable { name: String, unit: String },
    /// Report every occurrence of the client event `event_name`.
    SubscribeEvent { event_name: String },
    /// Send the client event `event_name` with `data` to the user aircraft.
    TransmitEvent { event_name: String, data: u32 },
    /// Close the session.
    Disconnect,
}

/// A SimConnect call to make, with every argument but the session handle.
/// `AddToDataDefinition` is made with an epsilon of zero.
#[derive(Debug, Clone, PartialEq, Eq)]
pub enum SimAction {
    AddToDataDefinition {
        define_id: SIMCONNECT_DATA_DEFINITION_ID,
        datum_name: String,
        units_name: String,
        datum_type: SIMCONNECT_DATATYPE,
        datum_id: DWORD,
    },
    RequestDataOnSimObject {
        request_id: SIMCONNECT_DATA_REQUEST_ID,
        define_id: SIMCONNECT_DATA_DEFINITION_ID,
        object_id: SIMCONNECT_OBJECT_ID,
        period: SIMCONNECT_PERIOD,
        flags: DWORD,
        origin: DWORD,
        interval: DWORD,
        limit: DWORD,
    },
    ClearDataDefinition { define_id: SIMCONNECT_DATA_DEFINITION_ID },
    MapClientEventToSimEvent { event_id: SIMCONNECT_CLIENT_EVENT_ID, event_name: String },
    AddClientEventToNotificationGroup {
        group_id: SIMCONNECT_NOTIFICATION_GROUP_ID,
        event_id: SIMCONNECT_CLIENT_EVENT_ID,
        maskable: BOOL,
    },
    SetNotificationGroupPriority { group_id: SIMCONNECT_NOTIFICATION_GROUP_ID, priority: DWORD },
    TransmitClientEvent {
        object_id: SIMCONNECT_OBJECT_ID,
        event_id: SIMCONNECT_CLIENT_EVENT_ID,
        data: DWORD,
        group_id: SIMCONNECT_NOTIFICATION_GROUP_ID,
        flags: DWORD,
    },
}

/// A [`SimAction`] with its names as character sequences.
pub enum SimActionView {
    AddToDataDefinition {
        define_id: u32,
        datum_name: Seq<char>,
        units_name: Seq<char>,
        datum_type: i32,
        datum_id: u32,
    },
    RequestDataOnSimObject {
        request_id: u32,
        define_id: u32,
        object_id: u32,
        period: i32,
        flags: u32,
        origin: u32,
        interval: u32,
        limit: u32,
    },
    ClearDataDefinition { define_id: u32 },
    MapClientEventToSimEvent { event_id: u32, event_name: Seq<char> },
    AddClientEventToNotificationGroup { group_id: u32, event_id: u32, maskable: i32 },
    SetNotificationGroupPriority { group_id: u32, priority: u32 },
    TransmitClientEvent { object_id: u32, event_id: u32, data: u32, group_id: u32, flags: u32 },
}

impl View for SimAction {
    type V = SimActionView;

    open spec fn view(&self) -> SimActionView {
        match self {
            SimAction::AddToDataDefinition { define_id, datum_name, units_name, datum_type, datum_id } =>
                SimActionView::AddToDataDefinition {
                    define_id: *define_id,
                    datum_name: datum_name@,
                    units_name: units_name@,
                    datum_type: *datum_type,
                    datum_id: *datum_id,
                },
            SimAction::RequestDataOnSimObject { request_id, define_id, object_id, period, flags, origin, interval, limit } =>
                SimActionView::RequestDataOnSimObject {
                    request_id: *request_id,
                    define_id: *define_id,
                    object_id: *object_id,
                    period: *period,
                    flags: *flags,
                    origin: *origin,
                    interval: *interval,
                    limit: *limit,
                },
            SimAction::ClearDataDefinition { define_id } => SimActionView::ClearDataDefinition { define_id: *define_id },
            SimAction::MapClientEventToSimEvent { event_id, event_name } =>
                SimActionView::MapClientEventToSimEvent { event_id: *event_id, event_name: event_name@ },
            SimAction::AddClientEventToNotificationGroup { group_id, event_id, maskable } =>
                SimActionView::AddClientEventToNotificationGroup { group_id: *group_id, event_id: *event_id, maskable: *maskable },
            SimAction::SetNotificationGroupPriority { group_id, priority } =>
                SimActionView::SetNotificationGroupPriority { group_id: *group_id, priority: *priority },
            SimAction::TransmitClientEvent { object_id, event_id, data, group_id, flags } =>
                SimActionView::TransmitClientEvent {
                    object_id: *object_id,
                    event_id: *event_id,
                    data: *data,
                    group_id: *group_id,
                    flags: *flags,
                },
        }
    }
}

/// The views of a list of actions.
pub open spec fn actions_view(actions: Seq<SimAction>) -> Seq<SimActionView> {
    actions.map_values(|a: SimAction| a@)
}

/// What the worker does about a command.
#[derive(Debug, Clone, PartialEq, Eq)]
pub enum CommandOutcome {
    /// End the session.
    Stop,
    /// Make these calls.
    Perform(Vec<SimAction>),
    /// Make these calls, and hand the value that arrives for `define_id` to
    /// whoever asked for it.
    AwaitReply { define_id: SIMCONNECT_DATA_DEFINITION_ID, actions: Vec<SimAction> },
}

pub enum CommandOutcomeView {
    Stop,
    Perform(Seq<SimActionView>),
    AwaitReply { define_id: u32, actions: Seq<SimActionView> },
}

impl View for CommandOutcome {
    type V = CommandOutcomeView;

    open spec fn view(&self) -> CommandOutcomeView {
        match self {
            CommandOutcome::Stop => CommandOutcomeView::Stop,
            CommandOutcome::Perform(actions) => CommandOutcomeView::Perform(actions_view(actions@)),
            CommandOutcome::AwaitReply { define_id, actions } =>
                CommandOutcomeView::AwaitReply { define_id: *define_id, actions: actions_view(actions@) },
        }
    }
}

/// A dispatched record, reduced to what the worker acts on.  The value of a
/// data record is the bit pattern of the `f64` that SimConnect sent.
#[derive(Debug, Clone, Copy, PartialEq, Eq, Structural)]
pub enum Received {
    SimObjectData { define_id: u32, value_bits: u64 },
    Event { event_id: u32, data: u32 },
    Quit,
    Other,
}

/// The record that the bytes of a dispatched message stand for.  A record
/// too short for the fields that would be read from it counts as `Other`.
pub open spec fn received_from(bytes: Seq<u8>) -> Received {
    if bytes.len() < RECV_HEADER_SIZE {
        Received::Other
    } else {
        let id = le_u32(bytes, 8);
        if id == SIMCONNECT_RECV_ID_SIMOBJECT_DATA {
            if bytes.len() >= SIMOBJECT_DATA_OFFSET + 8 {
                Received::SimObjectData {
                    define_id: le_u32(bytes, 20) as u32,
                    value_bits: le_u64(bytes, SIMOBJECT_DATA_OFFSET as int) as u64,
                }
            } else {
                Received::Other
            }
        } else if id == SIMCONNECT_RECV_ID_EVENT {
            if bytes.len() >= RECV_EVENT_SIZE {
                Received::Event { event_id: le_u32(bytes, 16) as u32, data: le_u32(bytes, 20) as u32 }
            } else {
                Received::Other
            }
        } else if id == SIMCONNECT_RECV_ID_QUIT {
            Received::Quit
        } else {
            Received::Other
        }
    }
}

/// Decodes the bytes of a record that `SimConnect_GetNextDispatch` handed back.
pub fn decode_dispatch(bytes: &[u8]) -> (received: Received)
    ensures
        received == received_from(bytes@),
{
    let header = match SIMCONNECT_RECV::read(bytes) {
        Some(h) => h,
        None => return Received::Other,
    };
    if header.dwID == SIMCONNECT_RECV_ID_SIMOBJECT_DATA as u32 {
        if bytes.len() < SIMOBJECT_DATA_OFFSET + 8 {
            return Received::Other;
        }
        match SIMCONNECT_RECV_SIMOBJECT_DATA::read(bytes) {
            Some(record) => Received::SimObjectData {
                define_id: record.dwDefineID,
                value_bits: read_u64_le(bytes, SIMOBJECT_DATA_OFFSET),
            },
            None => Received::Other,
        }
    } else if header.dwID == SIMCONNECT_RECV_ID_EVENT as u32 {
        match SIMCONNECT_RECV_EVENT::read(bytes) {
            Some(record) => Received::Event { event_id: record.uEventID, data: record.dwData },
            None => Received::Other,
        }
    } else if header.dwID == SIMCONNECT_RECV_ID_QUIT as u32 {
        Received::Quit
    } else {
        Received::Other
    }
}

/// What the worker does about a dispatched record.
#[derive(Debug, Clone, PartialEq, Eq)]
pub enum DispatchOutcome {
    /// Nothing.
    Ignore,
    /// End the session: the simulator is closing.
    Quit,
    /// Report the new value of the subscribed variable `name`.
    EmitVariable { name: String, value_bits: u64 },
    /// Report an occurrence of the client event `name`.
    EmitEvent { name: String, data: u32 },
    /// Hand the value to whoever is waiting for `define_id`, then make these calls.
    Reply { define_id: SIMCONNECT_DATA_DEFINITION_ID, value_bits: u64, actions: Vec<SimAction> },
}

pub enum DispatchOutcomeView {
    Ignore,
    Quit,
    EmitVariable { name: Seq<char>, value_bits: u64 },
    EmitEvent { name: Seq<char>, data: u32 },
    Reply { define_id: u32, value_bits: u64, actions: Seq<SimActionView> },
}

impl View for DispatchOutcome {
    type V = DispatchOutcomeView;

    open spec fn view(&self) -> DispatchOutcomeView {
        match self {
            DispatchOutcome::Ignore => DispatchOutcomeView::Ignore,
            DispatchOutcome::Quit => DispatchOutcomeView::Quit,
            DispatchOutcome::EmitVariable { name, value_bits } =>
                DispatchOutcomeView::EmitVariable { name: name@, value_bits: *value_bits },
            DispatchOutcome::EmitEvent { name, data } => DispatchOutcomeView::EmitEvent { name: name@, data: *data },
            DispatchOutcome::Reply { define_id, value_bits, actions } =>
                DispatchOutcomeView::Reply { define_id: *define_id, value_bits: *value_bits, actions: actions_view(actions@) },
        }
    }
}

/// What the worker remembers between commands and records.
pub struct ManagerState {
    /// The id the next data definition gets.
    pub next_define_id: u32,
    /// The id the next client event gets.
    pub next_event_id: u32,
    /// Subscribed variables by data definition id.
    pub variables: Map<u32, Seq<char>>,
    /// Mapped client events by event id.
    pub events: Map<u32, Seq<char>>,
    /// Data definitions of one-shot reads still waiting for their value.
    pub pending: Set<u32>,
}

/// The state of a fresh session: ids start at 1 and nothing is registered.
pub open spec fn initial_state() -> ManagerState {
    ManagerState {
        next_define_id: 1,
        next_event_id: 1,
        variables: Map::empty(),
        events: Map::empty(),
        pending: Set::empty(),
    }
}

/// Every id in use was handed out before, none is 0, no name is registered
/// twice, and a one-shot read never shares its id with a subscription.
pub open spec fn state_well_formed(s: ManagerState) -> bool {
    &&& 1 <= s.next_define_id
    &&& 1 <= s.next_event_id
    &&& s.variables.is_injective()
    &&& s.events.is_injective()
    &&& forall|id: u32| #[trigger] s.variables.contains_key(id) ==> 1 <= id < s.next_define_id
    &&& forall|id: u32| #[trigger] s.pending.contains(id) ==> 1 <= id < s.next_define_id && !s.variables.contains_key(id)
    &&& forall|id: u32| #[trigger] s.events.contains_key(id) ==> 1 <= id < s.next_event_id
}

/// Whether `cmd` can be handled in `s` without running out of ids: a command
/// that hands out a new id needs one below `u32::MAX` to be free.
pub open spec fn command_fits(s: ManagerState, cmd: SimCommand) -> bool {
    match cmd {
        SimCommand::SubscribeVariable { name, .. } =>
            s.variables.contains_value(name@) || s.next_define_id < u32::MAX,
        SimCommand::GetVariable { .. } => s.next_define_id < u32::MAX,
        SimCommand::SubscribeEvent { event_name } =>
            s.events.contains_value(event_name@) || s.next_event_id < u32::MAX,
        SimCommand::TransmitEvent { event_name, .. } =>
            s.events.contains_value(event_name@) || s.next_event_id < u32::MAX,
        _ => true,
    }
}

/// The call that registers `name` in `unit` as the single `f64` datum of
/// data definition `define_id`.
pub open spec fn define_datum(define_id: u32, name: Seq<char>, unit: Seq<char>) -> SimActionView {
    SimActionView::AddToDataDefinition {
        define_id,
        datum_name: name,
        units_name: unit,
        datum_type: SIMCONNECT_DATATYPE_FLOAT64,
        datum_id: SIMCONNECT_UNUSED,
    }
}

/// The call that asks for data definition `define_id` of the user aircraft
/// every `period`, under the request id `define_id`.
pub open spec fn request_data(define_id: u32, period: i32) -> SimActionView {
    SimActionView::RequestDataOnSimObject {
        request_id: define_id,
        define_id,
        object_id: SIMCONNECT_OBJECT_ID_USER,
        period,
        flags: 0,
        origin: 0,
        interval: 0,
        limit: 0,
    }
}

/// The call that sends client event `event_id` with `data` to the user
/// aircraft at the highest priority.
pub open spec fn transmit(event_id: u32, data: u32) -> SimActionView {
    SimActionView::TransmitClientEvent {
        object_id: SIMCONNECT_OBJECT_ID_USER,
        event_id,
        data,
        group_id: SIMCONNECT_GROUP_PRIORITY_HIGHEST,
        flags: SIMCONNECT_EVENT_FLAG_GROUPID_IS_PRIORITY,
    }
}

/// The state after `cmd` in `s`, and what is done about it.
pub open spec fn command_step(s: ManagerState, cmd: SimCommand) -> (ManagerState, CommandOutcomeView) {
    match cmd {
        SimCommand::Disconnect => (s, CommandOutcomeView::Stop),
        SimCommand::SubscribeVariable { name, unit, fps } => {
            if s.variables.contains_value(name@) {
                (s, CommandOutcomeView::Perform(seq![]))
            } else {
                let id = s.next_define_id;
                (
                    ManagerState {
                        next_define_id: (id + 1) as u32,
                        variables: s.variables.insert(id, name@),
                        ..s
                    },
                    CommandOutcomeView::Perform(
                        seq![define_datum(id, name@, unit@), request_data(id, period_for_fps(fps))],
                    ),
                )
            }
        },
        SimCommand::UnsubscribeVariable { name } => match id_for_name(s.variables, name@) {
            Some(id) => (
                ManagerState { variables: s.variables.remove(id), ..s },
                CommandOutcomeView::Perform(seq![SimActionView::ClearDataDefinition { define_id: id }]),
            ),
            None => (s, CommandOutcomeView::Perform(seq![])),
        },
        SimCommand::GetVariable { name, unit } => {
            let id = s.next_define_id;
            (
                ManagerState { next_define_id: (id + 1) as u32, pending: s.pending.insert(id), ..s },
                CommandOutcomeView::AwaitReply {
                    define_id: id,
                    actions: seq![define_datum(id, name@, unit@), request_data(id, SIMCONNECT_PERIOD_ONCE)],
                },
            )
        },
        SimCommand::SubscribeEvent { event_name } => {
            if s.events.contains_value(event_name@) {
                (s, CommandOutcomeView::Perform(seq![]))
            } else {
                let id = s.next_event_id;
                (
                    ManagerState {
                        next_event_id: (id + 1) as u32,
                        events: s.events.insert(id, event_name@),
                        ..s
                    },
                    CommandOutcomeView::Perform(
                        seq![
                            SimActionView::MapClientEventToSimEvent { event_id: id, event_name: event_name@ },
                            SimActionView::AddClientEventToNotificationGroup {
                                group_id: EVENT_GROUP_ID,
                                event_id: id,
                                maskable: 0,
                            },
                            SimActionView::SetNotificationGroupPriority {
                                group_id: EVENT_GROUP_ID,
                                priority: SIMCONNECT_GROUP_PRIORITY_HIGHEST,
                            },
                        ],
                    ),
                )
            }
        },
        SimCommand::TransmitEvent { event_name, data } => match id_for_name(s.events, event_name@) {
            Some(id) => (s, CommandOutcomeView::Perform(seq![transmit(id, data)])),
            None => {
                let id = s.next_event_id;
                (
                    ManagerState {
                        next_event_id: (id + 1) as u32,
                        events: s.events.insert(id, event_name@),
                        ..s
                    },
                    CommandOutcomeView::Perform(
                        seq![
                            SimActionView::MapClientEventToSimEvent { event_id: id, event_name: event_name@ },
                            transmit(id, data),
                        ],
                    ),
                )
            },
        },
    }
}

/// The state after record `r` in `s`, and what is done about it.
pub open spec fn dispatch_step(s: ManagerState, r: Received) -> (ManagerState, DispatchOutcomeView) {
    match r {
        Received::SimObjectData { define_id, value_bits } => {
            if s.pending.contains(define_id) {
                (
                    ManagerState { pending: s.pending.remove(define_id), ..s },
                    DispatchOutcomeView::Reply {
                        define_id,
                        value_bits,
                        actions: seq![SimActionView::ClearDataDefinition { define_id }],
                    },
                )
            } else if s.variables.contains_key(define_id) {
                (s, DispatchOutcomeView::EmitVariable { name: s.variables[define_id], value_bits })
            } else {
                (s, DispatchOutcomeView::Ignore)
            }
        },
        Received::Event { event_id, data } => {
            if s.events.contains_key(event_id) {
                (s, DispatchOutcomeView::EmitEvent { name: s.events[event_id], data })
            } else {
                (s, DispatchOutcomeView::Ignore)
            }
        },
        Received::Quit => (s, DispatchOutcomeView::Quit),
        Received::Other => (s, DispatchOutcomeView::Ignore),
    }
}

/// The byte of the character `?`.
pub const QUESTION_MARK: u8 = 0x3F;

/// `bytes` with every NUL byte replaced by `?`.  In UTF-8 the only byte 0 is
/// the encoding of the character NUL, so this replaces each NUL character.
pub open spec fn nul_replaced(bytes: Seq<u8>) -> Seq<u8> {
    bytes.map_values(|b: u8| if b == 0 { QUESTION_MARK } else { b })
}

/// The bytes of a C string for `s`, without its terminator: SimConnect takes
/// names as NUL-terminated strings, so a NUL inside `s` becomes `?`.
pub fn to_cstring_bytes(s: &str) -> (bytes: Vec<u8>)
    ensures
        bytes@ == nul_replaced(s.spec_bytes()),
        bytes@.len() == s.spec_bytes().len(),
        forall|i: int|
            0 <= i < bytes@.len() ==> #[trigger] bytes@[i] == (if s.spec_bytes()[i] == 0 {
                0x3Fu8
            } else {
                s.spec_bytes()[i]
            }),
        forall|i: int| 0 <= i < bytes@.len() ==> #[trigger] bytes@[i] != 0,
{
    let source = s.as_bytes();
    let mut bytes: Vec<u8> = Vec::new();
    let mut i: usize = 0;
    while i < source.len()
        invariant
            0 <= i <= source@.len(),
            source@ == s.spec_bytes(),
            bytes@ == nul_replaced(source@.subrange(0, i as int)),
        decreases source@.len() - i,
    {
        let b = source[i];
        if b == 0 {
            bytes.push(QUESTION_MARK);
        } else {
            bytes.push(b);
        }
        proof {
            assert(source@.subrange(0, i + 1) =~= source@.subrange(0, i as int).push(b));
        }
        i = i + 1;
        assert(bytes@ =~= nul_replaced(source@.subrange(0, i as int)));
    }
    assert(source@.subrange(0, source@.len() as int) =~= source@);
    bytes
}

/// The worker's memory, without the invariant attached.
struct ManagerCore {
    next_define_id: u32,
    next_event_id: u32,
    variables: NameRegistry,
    events: NameRegistry,
    pending: HashSet<u32>,
}

impl ManagerCore {
    spec fn state(&self) -> ManagerState {
        ManagerState {
            next_define_id: self.next_define_id,
            next_event_id: self.next_event_id,
            variables: self.variables@,
            events: self.events@,
            pending: self.pending@,
        }
    }

    fn fresh() -> (core: Self)
        ensures
            core.state() == initial_state(),
            state_well_formed(core.state()),
    {
        let core = ManagerCore {
            next_define_id: 1,
            next_event_id: 1,
            variables: NameRegistry::new(),
            events: NameRegistry::new(),
            pending: HashSet::new(),
        };
        assert(core.state().pending =~= Set::<u32>::empty());
        core
    }

    fn handle_command(&mut self, cmd: SimCommand) -> (out: CommandOutcome)
        requires
            state_well_formed(old(self).state()),
            command_fits(old(self).state(), cmd),
        ensures
            state_well_formed(final(self).state()),
            (final(self).state(), out@) == command_step(old(self).state(), cmd),
    {
        let ghost s = self.state();
        match cmd {
            SimCommand::Disconnect => CommandOutcome::Stop,
            SimCommand::SubscribeVariable { name, unit, fps } => {
                if self.variables.id_of(&name).is_some() {
                    let actions: Vec<SimAction> = Vec::new();
                    assert(actions_view(actions@) =~= seq![]);
                    return CommandOutcome::Perform(actions);
                }
                let define_id = self.next_define_id;
                let mut actions: Vec<SimAction> = Vec::new();
                actions.push(
                    SimAction::AddToDataDefinition {
                        define_id,
                        datum_name: name.clone(),
                        units_name: unit,
                        datum_type: SIMCONNECT_DATATYPE_FLOAT64,
                        datum_id: SIMCONNECT_UNUSED,
                    },
                );
                actions.push(
                    SimAction::RequestDataOnSimObject {
                        request_id: define_id,
                        define_id,
                        object_id: SIMCONNECT_OBJECT_ID_USER,
                        period: fps_to_period(fps),
                        flags: 0,
                        origin: 0,
                        interval: 0,
                        limit: 0,
                    },
                );
                let ghost name_view = name@;
                self.variables.insert(define_id, name);
                self.next_define_id = define_id + 1;
                proof {
                    assert(actions_view(actions@) =~= seq![
                        define_datum(define_id, name_view, unit@),
                        request_data(define_id, period_for_fps(fps)),
                    ]);
                    assert(self.state().variables =~= s.variables.insert(define_id, name_view));
                }
                CommandOutcome::Perform(actions)
            },
            SimCommand::UnsubscribeVariable { name } => {
                match self.variables.remove_name(&name) {
                    Some(define_id) => {
                        let mut actions: Vec<SimAction> = Vec::new();
                        actions.push(SimAction::ClearDataDefinition { define_id });
                        proof {
                            assert(actions_view(actions@) =~= seq![
                                SimActionView::ClearDataDefinition { define_id },
                            ]);
                        }
                        CommandOutcome::Perform(actions)
                    },
                    None => {
                        let actions: Vec<SimAction> = Vec::new();
                        assert(actions_view(actions@) =~= seq![]);
                        CommandOutcome::Perform(actions)
                    },
                }
            },
            SimCommand::GetVariable { name, unit } => {
                let define_id = self.next_define_id;
                let mut actions: Vec<SimAction> = Vec::new();
                actions.push(
                    SimAction::AddToDataDefinition {
                        define_id,
                        datum_name: name,
                        units_name: unit,
                        datum_type: SIMCONNECT_DATATYPE_FLOAT64,
                        datum_id: SIMCONNECT_UNUSED,
                    },
                );
                actions.push(
                    SimAction::RequestDataOnSimObject {
                        request_id: define_id,
                        define_id,
                        object_id: SIMCONNECT_OBJECT_ID_USER,
                        period: SIMCONNECT_PERIOD_ONCE,
                        flags: 0,
                        origin: 0,
                        interval: 0,
                        limit: 0,
                    },
                );
                self.pending.insert(define_id);
                self.next_define_id = define_id + 1;
                proof {
                    assert(actions_view(actions@) =~= seq![
                        define_datum(define_id, name@, unit@),
                        request_data(define_id, SIMCONNECT_PERIOD_ONCE),
                    ]);
                }
                CommandOutcome::AwaitReply { define_id, actions }
            },
            SimCommand::SubscribeEvent { event_name } => {
                if self.events.id_of(&event_name).is_some() {
                    let actions: Vec<SimAction> = Vec::new();
                    assert(actions_view(actions@) =~= seq![]);
                    return CommandOutcome::Perform(actions);
                }
                let event_id = self.next_event_id;
                let mut actions: Vec<SimAction> = Vec::new();
                actions.push(SimAction::MapClientEventToSimEvent { event_id, event_name: event_name.clone() });
                actions.push(
                    SimAction::AddClientEventToNotificationGroup {
                        group_id: EVENT_GROUP_ID,
                        event_id,
                        maskable: 0,
                    },
                );
                actions.push(
                    SimAction::SetNotificationGroupPriority {
                        group_id: EVENT_GROUP_ID,
                        priority: SIMCONNECT_GROUP_PRIORITY_HIGHEST,
                    },
                );
                let ghost name_view = event_name@;
                self.events.insert(event_id, event_name);
                self.next_event_id = event_id + 1;
                proof {
                    assert(actions_view(actions@) =~= seq![
                        SimActionView::MapClientEventToSimEvent { event_id, event_name: name_view },
                        SimActionView::AddClientEventToNotificationGroup {
                            group_id: EVENT_GROUP_ID,
                            event_id,
                            maskable: 0,
                        },
                        SimActionView::SetNotificationGroupPriority {
                            group_id: EVENT_GROUP_ID,
                            priority: SIMCONNECT_GROUP_PRIORITY_HIGHEST,
                        },
                    ]);
                }
                CommandOutcome::Perform(actions)
            },
            SimCommand::TransmitEvent { event_name, data } => {
                let mut actions: Vec<SimAction> = Vec::new();
                let event_id = match self.events.id_of(&event_name) {
                    Some(id) => id,
                    None => {
                        let id = self.next_event_id;
                        actions.push(SimAction::MapClientEventToSimEvent { event_id: id, event_name: event_name.clone() });
                        self.events.insert(id, event_name);
                        self.next_event_id = id + 1;
                        id
                    },
                };
                actions.push(
                    SimAction::TransmitClientEvent {
                        object_id: SIMCONNECT_OBJECT_ID_USER,
                        event_id,
                        data,
                        group_id: SIMCONNECT_GROUP_PRIORITY_HIGHEST,
                        flags: SIMCONNECT_EVENT_FLAG_GROUPID_IS_PRIORITY,
                    },
                );
                proof {
                    if s.events.contains_value(event_name@) {
                        assert(actions_view(actions@) =~= seq![transmit(event_id, data)]);
                    } else {
                        assert(actions_view(actions@) =~= seq![
                            SimActionView::MapClientEventToSimEvent { event_id, event_name: event_name@ },
                            transmit(event_id, data),
                        ]);
                    }
                }
                CommandOutcome::Perform(actions)
            },
        }
    }

    fn handle_dispatch(&mut self, received: Received) -> (out: DispatchOutcome)
        requires
            state_well_formed(old(self).state()),
        ensures
            state_well_formed(final(self).state()),
            (final(self).state(), out@) == dispatch_step(old(self).state(), received),
    {
        let ghost s = self.state();
        match received {
            Received::SimObjectData { define_id, value_bits } => {
                let was_pending = self.pending.remove(&define_id);
                if was_pending {
                    let mut actions: Vec<SimAction> = Vec::new();
                    actions.push(SimAction::ClearDataDefinition { define_id });
                    proof {
                        assert(actions_view(actions@) =~= seq![
                            SimActionView::ClearDataDefinition { define_id },
                        ]);
                    }
                    DispatchOutcome::Reply { define_id, value_bits, actions }
                } else {
                    assert(self.pending@ =~= s.pending);
                    match self.variables.name_of(define_id) {
                        Some(name) => DispatchOutcome::EmitVariable { name, value_bits },
                        None => DispatchOutcome::Ignore,
                    }
                }
            },
            Received::Event { event_id, data } => {
                match self.events.name_of(event_id) {
                    Some(name) => DispatchOutcome::EmitEvent { name, data },
                    None => DispatchOutcome::Ignore,
                }
            },
            Received::Quit => DispatchOutcome::Quit,
            Received::Other => DispatchOutcome::Ignore,
        }
    }
}

/// The SimConnect worker's decisions and memory.
pub struct SimManager {
    core: ManagerCore,
}

impl View for SimManager {
    type V = ManagerState;

    closed spec fn view(&self) -> ManagerState {
        self.core.state()
    }
}

impl SimManager {
    #[verifier::type_invariant]
    spec fn well_formed(&self) -> bool {
        state_well_formed(self.core.state())
    }

    /// A manager for a session that was just opened.
    pub fn new() -> (manager: Self)
        ensures
            manager@ == initial_state(),
            state_well_formed(manager@),
    {
        SimManager { core: ManagerCore::fresh() }
    }

    /// Whether `cmd` can be handled without running out of ids.  A command
    /// that would need a new id past the last one is refused by
    /// [`SimManager::handle_command`]'s precondition.
    pub fn accepts(&self, cmd: &SimCommand) -> (fits: bool)
        ensures
            fits == command_fits(self@, *cmd),
    {
        match cmd {
            SimCommand::SubscribeVariable { name, .. } =>
                self.core.variables.id_of(name).is_some() || self.core.next_define_id < u32::MAX,
            SimCommand::GetVariable { .. } => self.core.next_define_id < u32::MAX,
            SimCommand::SubscribeEvent { event_name } =>
                self.core.events.id_of(event_name).is_some() || self.core.next_event_id < u32::MAX,
            SimCommand::TransmitEvent { event_name, .. } =>
                self.core.events.id_of(event_name).is_some() || self.core.next_event_id < u32::MAX,
            _ => true,
        }
    }

    /// Handles a command from the front end: updates what is remembered and
    /// says which SimConnect calls to make.
    pub fn handle_command(&mut self, cmd: SimCommand) -> (out: CommandOutcome)
        requires
            command_fits(old(self)@, cmd),
        ensures
            (final(self)@, out@) == command_step(old(self)@, cmd),
            state_well_formed(final(self)@),
    {
        proof {
            use_type_invariant(&*self);
        }
        let mut core = ManagerCore::fresh();
        std::mem::swap(&mut core, &mut self.core);
        let out = core.handle_command(cmd);
        self.core = core;
        out
    }

    /// Handles a record that SimConnect dispatched: updates what is
    /// remembered and says what to report.
    pub fn handle_dispatch(&mut self, received: Received) -> (out: DispatchOutcome)
        ensures
            (final(self)@, out@) == dispatch_step(old(self)@, received),
            state_well_formed(final(self)@),
    {
        proof {
            use_type_invariant(&*self);
        }
        let mut core = ManagerCore::fresh();
        std::mem::swap(&mut core, &mut self.core);
        let out = core.handle_dispatch(received);
        self.core = core;
        out
    }
}

} // verus!
