# imageflow_core

The core of an image-processing pipeline, written in Verus. The functions in `src/` are verified
against their contracts, except the small trusted wrappers around outside crates listed below,
whose contracts are believed, and the polls of the cancellation token, whose shared atomic state
is not modelled (the decisions they make from what they read are verified functions).

## Layout

- `src/graphics/` — bitmaps and the operations on their pixels: filling, copying rectangles,
  flipping, transposing, alpha handling, swizzles, histograms, whitespace detection, hashing and
  the layout of aligned buffers.
- `src/flow/` — the processing graph: frame estimates, the engine's choice of the next node to
  expand or execute, and the node definitions (canvases, crops, regions, scaling, orientation,
  white balance, decoders and encoders).
- `src/codecs/` — what the decoders and encoders decide around their codec calls (settings,
  source color profiles, frame selection, animation state) and the conversions of frames between
  bitmaps and codec buffers.
- `src/errors.rs`, `src/flow_error.rs`, `src/error.rs` — error kinds, their categories and the
  HTTP, process and C codes reported for them, and the error buffer handed across the C boundary.
- `src/context.rs`, `src/context_methods.rs` — security limits of a job and the message methods
  of a context.
- `src/io.rs`, `src/writing.rs`, `src/text.rs`, `src/json_context.rs` — buffers through which
  images and messages come in and go out.
- `app/` — ordinary Rust around the library: `Display` and `Debug` forms, floating-point
  computations around verified decisions, and the `enough::Stop` trait.
- `tests/` — tests of the library on concrete values.

Outside crates are reached through small trusted wrappers whose contracts state what each call
does: `garb` for pixel swizzles, `twox-hash` for hashing, `smallvec` for the error location stack,
`serde_json` for JSON error positions and `enough` for stop reasons.
