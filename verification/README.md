# avix_core

The core of the Avix gateway and kernel, written in Verus: the access
rules, protocol types and event scoping of the gateway, the handler and
kernel IPC routing decisions, and the state machines for jobs, approvals,
human-in-the-loop requests and signals, each with its contract proved.

- `src/` is the verified library. Every function has its contract in
  `requires` / `ensures`; the properties that span several calls are
  public proof functions named `law_*`.
- `app/` is ordinary Rust around it: JSON text and serde copies of the
  library's types, the tokio event bus, Unix-socket IPC, the gateway
  connection loop, the kernel's request routing, spawning against an
  in-memory process table and `agents.yaml`, and the `job/watch` wait.
  The kernel's other services (sessions, history, packages, the
  executor) are traits that a deployment provides; none is implemented
  here.
- `tests/` exercises the library on concrete values.

Calls into outside crates (`uuid`, `chrono`, and `String::push` from std)
go through a handful of small trusted wrappers,
each documented where it is declared.
