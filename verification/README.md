# azooKey for Windows, verified

The text service of azooKey for Windows: what it decides and computes, written
in Verus and proved against the contracts that stand beside it.

- `src/engine/` — keys, modes, compositions and candidates: which actions a
  keystroke leads to, and what each batch of actions does to the composition,
  the engine and the candidate window, whatever answers come back.
- `src/tsf/` — the rules of talking to the Text Services Framework: activation,
  edit sessions, compartments, preserved keys, the language bar, the candidate
  list that a host draws itself.
- `src/harness/` — the rules of the harness that drives the text service in a
  virtual machine.
- `src/` — texts, failures, registration, logging, and what keeps the module
  loaded.
- `tests/` — the library at work on concrete values; `tests/host.rs` plays a
  whole host.
- `app/` — ordinary Rust around the library: the COM objects, the calls to the
  engine and to Windows, the harness and a small host for it to type into. It
  carries out the effects that the library asks for and hands back what came of
  them. The generated clients and the pipes are the workspace's `shared` crate.

A batch of actions is a value (`engine::actions::Batch`). `effect` says what is
to be done next, `resume` takes in what came of it, and `finish` writes the
composition back. `engine::batch_laws` states what holds of every batch.
