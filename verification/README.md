# Insight Reader

The verified core of Insight Reader, a text-to-speech reader that speaks the
selected text with Piper (local) or AWS Polly (cloud).

`src/` is a Verus library; every executable function carries a contract that
Verus proves. It holds what the reader decides:

- `config`, `hotkey`: what each setting in `config.json` reads as, and what is
  written back when one changes.
- `update`: the reader's state and the transition taken on every event, with
  the actions the caller performs (`UiState::update`).
- `providers`: Piper and AWS Polly (voice keys, credentials, process output),
  and the audio player (PCM decoding, WAV framing, playback position).
- `voices`: the Piper catalogue and AWS Polly voices, their languages, voice
  downloads and their MD5 check; `flags`: the flag shown for a language.
- `system`: selected text, Markdown to plain text for Natural Reading,
  screenshot capture and text recognition steps, the single-instance lock,
  the tray, the desktop session.
- `cli`, `logging`: the command-line commands and the logging settings.
- `text`, `paths`: character-level text and path functions with their specs.

Work that touches the outside world (files, processes, the network, the
environment) is done by the caller, which hands the library plain values and
performs the actions it returns. `app/` is such a caller: the command-line
program (`config show`, `logs show`, `permissions`), and, run without
arguments, a reader without its window that reads the selected text aloud
through `UiState::update` (with Piper, the cleanup service, the voice
catalogue fetched with `curl`, and the system's audio player). The window,
tray icon, global hotkey, AWS Polly and in-process audio output rest on
crates this build does not link (iced, tray-icon, global-hotkey,
aws-sdk-polly, rodio), so `app/` does not provide them; their decisions are
in the library all the same.

`tests/` exercise the library on concrete values.
