# stringcast

Stringcast watches what you type in any text field. When the text ends with a
trigger such as `?fix`, it sends the text to an AI provider and replaces the
field with the answer. This crate is the part of Stringcast that decides and
keeps state, verified with Verus. The functions in `src/` carry contracts that
Verus proves, except a handful of small `external_body` functions that make
one call into std each (the lock around the synthetic-input guard, the clock,
UTF-16 decoding and `Debug` formatting); their contracts are taken on trust.

## Layout

- `src/text.rs`: Unicode white space, `trim`/`trim_end` as functions on
  character sequences, and the character-level helpers the parsers use.
- `src/commands.rs`: the built-in commands, the custom commands from the
  configuration and their trigger rules, and the command registry.
- `src/detection.rs`: trigger detection. A static trigger at the end of the
  buffer matches. Otherwise the last unescaped `?translate:` or `?ask:` is
  pending until its debounce runs out. The decision is stated as the spec
  function `detection` and proved for `detect_trigger`.
- `src/orchestrator.rs`: the state machine of one operation (extract,
  transform, replace, verify), with its laws.
- `src/extraction.rs`: reading the focused field, from the typed buffer or
  through select-all, copy and the clipboard. The clipboard extractor keeps a
  ghost record of its calls, and its contract gives the order of the calls and
  the result for every outcome of each: a failure after the clipboard snapshot
  always collapses the selection and restores the clipboard. Every entry of
  the record is tied to the call that produced it by `call_ensures` of the
  clipboard's or simulator's method, on the recorded arguments and result;
  the same holds of the replacer, the guarded simulator (whose guard steps
  are tied to `acquire` and `release` on its own guard), the pipeline and
  the controller's guard queries.
- `src/replacement.rs`: replacing the field through the clipboard (put the
  replacement on it, select all, paste), with the clipboard given back what it
  held on every path once its snapshot was taken.
- `src/pipeline.rs`: detection, extraction, transformation and replacement
  chained, with the orchestrator kept consistent on every path.
- `src/input/`: keyboard events, the keystroke buffer, the guard that
  suppresses the application's own synthetic input, input simulators and the
  input controller. The guarded simulator and the controller keep ghost
  records of the calls they pass on and of the guard's answers, and their
  contracts are stated over them.
- `src/api/`: provider kinds, client settings and the API key pool (least
  recently used key, rate limits and cooldowns).
- `src/platform.rs`: the foreground application, the operation gate (disabled,
  secure input, elevated, excluded apps), and what the library makes of what
  Windows reports: executable names in process paths, UTF-16 text, window
  handles as text, and whether an elevated application blocks input.
- `src/storage.rs`, `src/runtime.rs`: the configuration and the runtime plan
  built from it.
- `app/`: operating-system adapters that Verus does not see: keystrokes through
  `enigo`, the Windows foreground-window probe, the waits between keystrokes,
  and `StringcastRuntime`, which wires them to the input controller.

Times are milliseconds held in `u64`, read from the guard's clock
(`SyntheticInputGuard::now`): milliseconds on the monotonic clock since the
guard was made. The guarded simulator reads it; the application reads it for
the times it hands to the input controller. The waits live in `app/`.

## Checking

Verus verifies the crate from `src/lib.rs`. The tests under `tests/` exercise
the compiled library with `cargo test`.
