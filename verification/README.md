# quicklaunch

The decision logic of a desktop quick launcher, verified with Verus.

- `src/` is the library: debounced global shortcuts (`debounce`), the
  launcher shortcuts and the punctuation they type while switched off
  (`hotkey`), the mouse overlay (`overlay`), clipboard forwarding and
  keystroke scripts (`clipboard`, `keys`), the commands that open paths and
  run programs (`commands`) and the stored data (`models`).
- `app/` is the desktop program around it: the Tauri window and commands, the
  global shortcut registrations, keyboard and mouse simulation, the clipboard,
  the data file and the Python backend.
- `tests/` runs the library on concrete inputs.
