# yubaba

A desktop front end for converting images, audio and video files.

- `src/` is the verified library: the recognised extensions and their kinds
  (`format`), opened files and image settings (`files`), the window icon
  decoded with `image` (`icon`), decimal text of rotations (`decimal`), what a
  conversion hands to the converters (`conversion`), and the user's choices
  with every operation on them (`state`).
- `app/` is the window (eframe, egui, rfd) and the calls into the Python
  converters (pyo3).

Cargo.toml names `image` (used by `src/`), and `egui`, `egui_extras` and
`pyo3` (used by `app/`). `eframe` and `rfd`, which `app/` also calls, are not
listed: with them the sources to fetch exceeded the size this build allows.
