# keyrs

Cross-platform keyboard and mouse-button events: listen to key presses and
clicks, and send them back.

- `src/` is the verified library (Verus): the platform-neutral key
  vocabulary (`keys`), the error type, and for each backend
  (`platform::linux`, `platform::windows`) the conversions between native
  codes and keys, the device bookkeeping, and what is injected. Its
  contracts and the proof functions beside them state, among others, that
  a key sent is heard back as the same key, that after a device scan
  exactly the scanned devices are read, and that every named key is
  listed once.
- `app/` holds the runtime backends around it: the async listening and
  sending traits, evdev discovery and reader tasks with Tokio on Linux,
  the low-level hooks and `SendInput` on Windows.
- `tests/` runs the library on concrete inputs.
