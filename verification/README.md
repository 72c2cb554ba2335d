# playdate

The logic of a Rust binding for the Playdate handheld console's C API, verified with Verus.

- `src/` is the verified library: the allocator's size and placement arithmetic, button event
  inference between frames, 8x8 patterns and bitmap pixel access, the drawing context stack, the
  registry of callback closures and its builder, the bookkeeping of sound sources and channels,
  C string conversion, file metadata and the chunked read/write decisions, and the values the
  device takes for system settings, the generation count of drawing settings and the one-timer
  rule. Laws that span functions are public proof functions next to the functions they relate.
  One function is trusted: `error::quote_for_debug`, which calls std's `Debug` for `str`.
- `tests/` runs the library on concrete values.
- `app/` performs the device calls through the C API bindings, around the library's decisions.
