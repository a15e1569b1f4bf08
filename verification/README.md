# dst

Hooks for deterministic simulation testing: property assertions, ghost state that exists only to
express properties, and read-only observation of that state.

- `src/mode.rs`: the three modes of a build (SDK, debug, release).
- `src/assertion.rs`: what each assertion reports at its site in a debug build.
- `src/live.rs`: ghost state and observations that are there (SDK and debug).
- `src/erased.rs`: the same interface with nothing behind it (release).
- `app/`: the assertion macros and `observe!`, which pick the mode at compile time, forward to the
  Antithesis SDK where it is enabled, and panic with a reported violation where it is not.

The library is verified with Verus. That an erased function never calls the closure it is given
shows in its contract: it asks for nothing, so it has no right to call it.
