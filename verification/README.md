# handy

The streaming-transcription core of a dictation app, verified with Verus.

`src/` (verified):

- `text` — UTF-8 byte lengths of character sequences, `truncate_front`
  (keep the longest suffix that fits a byte budget), `trim`, and the
  `TextAccumulator` that turns streaming segments into completed sentences
  and the text shown in the overlay.
- `streaming` — the streaming engine cache (`EngineSlot`) and how one
  transcribed chunk's segments update the accumulator.
- `gpu` — GPU provider names in the settings, which engines follow them, and
  the providers available in this build.
- `commands` — the GPU-provider and streaming-toggle settings commands as
  state machines: each step takes what the last outside operation reported
  and names the next operation; laws show that they finish and how the stored
  provider setting ends.
- `live_typing` — the key press that ends live typing.
- `channel` — the bounded frame channel. That a send never blocks, and which
  outcome a send has, rest on crossbeam's `try_send`, not on a proof; what is
  proved is the report built from that outcome and the earlier drop count
  (`report_send`), including the warning on every hundredth drop.

`app/` holds the application glue: Tauri commands, threads, locks and
condition variables, the keyboard listener, the calls into the transcription
engine, and the floating-point automatic gain control.
