# openharmony_ability

The decision-making core of an OpenHarmony (OHOS) native ability runtime and its
capability plugins, written in Verus and proved against its contracts.

## Layout

- `src/` — the verified library.
  - `app` — per-module state: saved state, init context, the single render owner and
    its surface, avoid areas, and the bridge session of a NativeAbility.
  - `worker_pool` — the three-lane priority queue behind the worker pool, its
    weighted lane pick (xorshift64*), and the per-worker step (run, wait, exit).
  - `hotkey` — the registry of global hotkey subscriptions, one per trampoline slot.
  - `clipboard` — how a pasteboard write is laid out in records, and the read/write
    sequences driven through the platform's pasteboard steps.
  - `file_uri` — URI/path conversion and URI authorization decisions.
  - `window_control`, `timer`, `child_process`, `input` — small decisions around
    the corresponding system calls.
  - `plugins` — the cursor, file-drop, file-launch, IME, open-by-system and pinch
    bridge plugins: event names, payloads and what each event turns into.
  - `error`, `text` — the library's error type and string helpers.
- `tests/` — tests of the library on concrete values.
- `app/` — the platform layer: NDK and N-API calls, the worker threads and their
  locks, the per-thread handler slots of the plugins, and floating-point geometry,
  driven by the library's decisions.
