# wasm_signals

Trap handling for compiled WebAssembly code on Unix, based on POSIX signals. The library
in `src/` makes the decisions and is verified with Verus:

- which signals get a handler on a platform, and what their numbers are;
- how the handlers are installed, and how they are removed again;
- what becomes of a signal: a trap, a matter for the embedder, or one to forward to the
  handler from before;
- which registers tell the faulting instruction and the frame pointer, and how a saved
  context is changed to resume elsewhere;
- whether a thread needs an alternate signal stack of its own, where it lies, and when it
  is unmapped.

Its state machines name the next action and are told what came of it. `app/` holds what
performs the actions: system calls, jumps and the raw contexts of the kernel.
