# Encore

A terminal music player that only plays music.

- `src/` is the verified library (Verus): playlist line normalisation
  (`normalize`), file classification by magic number (`file_format`), the
  configuration and its defaults (`configuration`), key presses and media
  events mapped to controls (`input`, `media`), and the decisions of the
  input, rendering and audio threads (`player`).
- `app/` is the program around it: reading files and the terminal, the TOML
  configuration (serde), the desktop media controls, threads and channels.
- `tests/` exercises the library on concrete values.
