# volume_app

A taskbar volume controller for Windows: turning the mouse wheel over the
taskbar changes the system volume, a middle click toggles mute, and a small
on-screen display shows the result and hides itself after a moment.

- `src/` is the verified library: the settings (`settings`), the volume step
  (`volume`), the taskbar and window geometry (`geometry`), the reading of
  low-level mouse events (`hook`), and the application state machine
  (`controller`). Each public function has an exact contract; the `law_*`
  proof functions state the properties that hold across calls.
- `app/` is the Tauri shell: audio endpoint, window, mouse hook, timers and the
  settings file. It asks the library what to do and performs it.
- `tests/` runs the library on concrete values.
