# ghidradbg_backend

A bridge between a debugger front end, which speaks line-delimited JSON over
standard input and output, and the Windows debugger engine.

- `src/` is the verified library: the data model (`state`, `event`), command
  requests and their dispatch (`command`), the wire framing (`wire`), the
  session loop's decisions (`session`), and the engine backend's decisions
  (`windbg`: result codes, execution status codes, event flags, register
  names, stack and state-change translation, the engine thread's loop).
- `app/` is the program around it: the asynchronous session, serde copies of
  the data model, and the engine's COM bindings (Windows only).
- `tests/` exercises the library on concrete values.
