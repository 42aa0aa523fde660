# nokozero

A practice and reinforcement-learning harness for a Windows bullet-hell game: a hook DLL
injected into the game exchanges observations and actions with a driver over a local TCP
channel, warps to any section or chapter by patching the stage's ECL scripts, and puts the
patches back before the next load.

## Layout

- `src/` is the verified library (Verus). It holds the logic of every part:
  - `practice/`: reset parameters, the warp catalog and its expansion into primitive
    writes, the ECL cursor with its undo log, the loader handoff, the reset/reload
    lifecycle, chapter skips and the first-hit handling;
  - `hook`, `input`, `menu`, `dialog`, `headless`: the in-game hooks' decisions;
  - `ipc`, `features`: the wire protocol and the observation layout;
  - `iat`, `patch`, `bytes`: import-table lookup, branch encoding and byte access;
  - `driver`, `env`, `reader`: the driver's parsing and planning, and entity checks;
  - `thread`: the main-thread witness that guards per-thread state.
- `app/` is ordinary Rust around it: the driver's `main`, the process reader, the launcher,
  and the hook's memory access, trampolines and Win32 calls.
- `tests/` runs the library on concrete values.
