# jett_studio

The SimConnect bridge of JETT Studio, with its decisions verified in Verus.

- `src/simconnect_ffi.rs` – SimConnect's constants and dispatched-record
  headers, decoded from little-endian bytes; the refresh-rate to period rule.
- `src/registry.rs` – the two-way index between ids and names.
- `src/simconnect_manager.rs` – the worker's state machine: commands become
  SimConnect calls, dispatched records become reports; its contracts are the
  spec functions `command_step` and `dispatch_step`.
- `src/manager_laws.rs` – what holds across steps (invariant kept, ids never
  reused, subscribe/report/unsubscribe, one-shot reads answered once, events
  round trip).
- `src/commands.rs` – the front end's session rules and error messages.
- `app/` – the Tauri commands, the worker thread and the SimConnect FFI
  calls, which carry out what the library decides.
