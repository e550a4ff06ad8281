# smallvil

Window management for a small Wayland compositor. A workspace has a main area and eight slots around
it, one for each edge and each corner. The focussed window fills the main area; the others rest in
their slots. Keys and touchpad gestures move the focus, and the windows glide to their new places.

- `src/` is the library: which window is where, what keys, the pointer and gestures do, which outputs
  there are, when frames are presented and repainted, and what clients are told. Verus proves the
  contract of every function but one: `lowercase` in `src/text.rs` calls the standard library, and its
  contract is taken on trust.
- `app/` runs the compositor: it reads events, asks the library what they come to, and carries that
  out on the screen. Floating-point arithmetic is there too; the library takes it as functions.
- `tests/` runs the library on concrete values.
