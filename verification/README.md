# monokit

The command core of a Teletype-style live-coding instrument, written in
Verus: the functions in `src/` carry contracts that Verus proves, except a
few small wrappers marked `#[verifier::external_body]` (in `rng`, `text` and
`validate`) around `rand` and the standard library, whose contracts are
believed from those libraries' documentation.

## Layout

- `src/` — the verified library.
  - `text`, `args`: reading numbers and words, evaluating arguments.
  - `console`: the lines a command prints, each under an output category;
    which categories the display settings show; the capped output screen.
  - `router`: which command a command word names.
  - `state`, `patterns`, `counters`, `variables`, `scale`, `sync`: the
    state that commands read and change, and the command handlers on it.
  - `math_ops`, `random_ops`, `randomization`, `gate`, `scheduling`,
    `synth_params`: handlers that compute a value, or say what to send to the
    sound engine or the metronome.
  - `script_exec`: the script interpreter's decisions (IF/ELIF/ELSE, EV/SKIP,
    loops, sub-commands, nesting depth, lines typed at the prompt).
  - `validate`, `aliases`: checking script lines and command names.
  - `editor`, `history`, `input_line`, `navigation`, `search`: editing pages,
    undo and redo, the input line, pages and search.
  - `rng`, `audio_devices`: random numbers and device lists.
  - Each module states its laws as public proof functions named `law_*`.
- `tests/` — tests of the library on concrete values.
- `app/` — the program around the library: the prompt, the metronome
  thread, OSC messages to the sound engine, audio device listing, and the
  decimal-valued synth parameters.
