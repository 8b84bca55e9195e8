# whimpr

The core of the WhimprFlow dictation app, verified with Verus.

- `src/` — the verified library:
  - `cleanup` — Auto Cleanup levels, their prompt modifiers and default.
  - `ipc` — the shell/sidecar wire messages; `ipc::codec` frames message
    bodies (`encode_frame`) and reads frames back through the `FrameReader`
    state machine, whose contract and laws (`frame_round_trip`,
    `frames_read_back_in_order`, `interrupted_reads_are_retried`) tie reading
    to writing.
  - `types`, `state`, `asr` — session identifiers, record modes, the actions
    and bar states of the dictation state machine, its timing constants, and
    engine identifiers.
- `app/` — the platform side: serde forms of the types, frame I/O over
  `Read`/`Write` streams, microphone capture and resampling (cpal, floating
  point), and the ASR engine trait.
- `tests/` — tests of the library on concrete values.
