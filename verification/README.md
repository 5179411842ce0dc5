# murmure2

Voice dictation through the Groq Whisper API, with its core verified by Verus.

`src/` is the verified library:

- `audio/encoder.rs`: WAV framing of recorded samples, the 25 MiB upload
  limit, and the proofs that the header describes the file.
- `audio/recorder.rs`: the recorder's state (stream, channel, start time),
  the ten-minute cap and the first-channel selection of the capture callback.
- `groq/client.rs`: the transcription client's key, its retry and back-off
  rule, and the errors for each kind of failed exchange.
- `config.rs`, `types.rs`: settings, their defaults and how a load ends.
- `crypto.rs`: the API key in the system keyring.
- `input/`: the fallback from typing to the clipboard, the global-shortcut
  registry and the decisions of active-window detection.
- `error.rs`, `text.rs`: the error type and its messages, decimal notation.

`app/` is the Tauri program around it: the device, HTTP, X11, file and
keyboard work, the float conversions of samples, and the serde copies of the
library's types.
