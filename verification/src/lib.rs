//! The decision logic of the JETT Studio SimConnect bridge.
//!
//! The desktop shell forwards commands (subscribe to a simulation variable,
//! read one once, subscribe to or transmit a client event, disconnect) to a
//! worker that owns the SimConnect session.  This crate holds everything that
//! worker and the command layer decide: how commands turn into SimConnect
//! calls, how ids are handed out and remembered, how the raw records that
//! SimConnect dispatches are decoded, and which of them are forwarded to the
//! front end.  The calls themselves, the threads and the channels are left to
//! the shell.
pub mod commands;
pub mod manager_laws;
pub mod registry;
pub mod simconnect_ffi;
pub mod simconnect_manager;
