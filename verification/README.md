# nih_plug_slint

Editors for NIH-plug plug-ins, with user interfaces drawn by Slint in windows made by baseview.

- `src/` is the verified library. It holds what a window knows and what it decides: which events
  Slint is told of and which go back to the host, what a resize or a change of scale leads to, what
  is done in each frame and while a window is opened. It performs none of that itself; it returns
  what is to be done, in order. Floating-point numbers pass through it without being computed with.
- `src/laws.rs` states and proves what holds of a window over its whole life.
- `app/` is the shell: it opens windows, converts events, calls Slint, the host and OpenGL, and
  works out the floating-point numbers. Besides the crates in `Cargo.toml` it needs `nih_plug`,
  which is not on crates.io, and Slint's feature `renderer-femtovg`.
- `tests/` runs the library on concrete values.
