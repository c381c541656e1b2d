# background_service

The decision core of a background-service plugin for desktop and mobile apps,
written and verified with Verus.

A host application runs one long-lived service. The library decides when a start
is refused, what a stop means for recovery, how the manager's belief follows the
native side, and what a status query reports. It performs no I/O: the host hands
each command to `ManagerState::step`, carries out the step that comes back, and
hands results in again.

- `src/` is the verified library. `manager`, `task` and `status` hold the state
  machine; `laws` states what holds across its commands. `config`, `models`,
  `desired_state`, `policy`, `notifier`, `validator` and `bridge` hold the rules
  that it applies. `token` and `json` wrap what is called in `tokio_util` and
  `serde_json`.
- `tests/` runs the library on concrete values, with a host kept in memory.
- `app/` is the plugin around the library: the actor, the native bridge, the
  storage and the wire formats.
