# local_whisper

The verified core of a desktop speech-to-text app that runs a Whisper model
on the user's own machine.

- `src/` — the library, verified with Verus:
  - `text` — decimal and lowercase-hex rendering, string equality;
  - `error` — the error type and the message each error shows;
  - `model` — the model catalog, lookup by id, the model picker's rows;
  - `audio` — checks on PCM requests, little-endian sample decoding, the
    minimum sample count, thread count, and joining segment texts;
  - `settings` — persisted preferences and their defaults;
  - `hotkey` — shortcut events and the fn + Shift edge tracker;
  - `state` — the shared app state and the decisions of model switching,
    shortcut rebinding and fn + Shift toggling;
  - `download` — keeping or replacing a model file, HTTP status handling,
    progress counting and throttling;
  - `paste` — the steps of a clipboard paste and the Cmd+V key events.
- `tests/` — tests of the library on concrete values.
- `app/` — the Tauri shell: commands, tray, global shortcuts, the event tap,
  file and network I/O, and the speech engine call.
