# local_stt

A local speech-to-text server, with its decisions verified in Verus.

- `src/` is the library. `manager`, `builder` and `get` hold the model manager: which model is
  loading, loaded or failed, when an unused model is dropped, and how a request waits for a load.
  `readiness`, `service`, `request`, `response`, `header` and `listen` hold the transcription
  service: whether it can start, how a request is read, and what it is answered with. `server`
  holds the actor that tells others how to reach the service. The modules whose names end in
  `_laws` state and prove what holds over any sequence of operations.
- `app/` is the shell around it in ordinary Rust: locks, timers, HTTP, and the actor runtime.
- `tests/` run the library.

Time is counted in nanoseconds from a moment that the shell fixes once, and is an argument of every
operation that depends on it. An operation that must wake waiting tasks, or have a model loaded,
says so in its result.
