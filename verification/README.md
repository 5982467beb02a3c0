# LingYu (灵语) — verified core

LingYu is a floating push-to-talk speech-to-text window for Windows: hold the
mouse button or a global hotkey to record, release to transcribe (locally with
the FunASR SenseVoice runtime, or through an OpenAI-compatible API), and the
text is copied to the clipboard and kept in a SQLite history.

## Layout

- `src/` — the library, verified with Verus:
  - `config.rs` — environment defaults, the SenseVoice model presets, the FunASR
    runtime and VAD model locations.
  - `transcript.rs` — cleaning of the runtime's output (tags, log lines, trimming).
  - `local_stt.rs` — the local transcriber: its files, its command line, reading
    its output, unique temporary file names.
  - `api.rs` — the transcription API request and the reading of its answer.
  - `settings.rs` — accepted setting keys, stored value length, history listing.
  - `hotkey.rs` — F1–F12 hotkeys, raw keyboard input, the helper's timer.
  - `session.rs` — the push-to-talk state machine, hotkey polling, clipboard
    retries, first-run downloads, backend choice, menu and window placement.
  - `audio.rs` — WAV encoding of a recording (hound).
  - `archive.rs` — taking the runtime out of its zip archive (zip).
  - `cli.rs` — command-line flags.
  - `text.rs`, `paths.rs` — string and path helpers.
- `app/` — the GTK 4 program around the library: window, microphone (cpal),
  clipboard (arboard), HTTP (reqwest), SQLite (rusqlite), Win32 hotkey helper.
- `tests/` — tests of the library on concrete values.
