# phasmoclock

A small always-on-top overlay with a stopwatch and a walking-speed readout
driven by tapping a key in time with footsteps.

- `src/` is the verified library: the stopwatch arithmetic (`stopwatch`), the
  tap-tempo window (`bpm`), the Windows and Linux key tables (`keymap_win`,
  `keymap_linux`), the key-binding configuration (`config`), turning key
  presses into actions (`input`), the settings-panel state and selector
  choices (`panel`), the readout text (`display`) and asset listings
  (`assets`). Clock readings enter through `clock`.
- `app/` is the program around it: the window, the keyboard listener thread,
  the settings file, the floating-point tempo and window geometry.
- `tests/` exercise the library on concrete values.
