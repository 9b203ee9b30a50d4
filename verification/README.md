# metal-live-resize

Glitch-free macOS `CAMetalLayer` window live resize, with the decisions
proved by Verus.

- `src/` is the verified library. Each operation of the fix (the one-time
  setup of a layer, reading a view's backing scale factor, the per-frame read
  of the drawable's texture size) is a small state machine: it names the next
  Objective-C message to send and takes its answer. Proof functions state
  what a whole run does: which messages are sent, in which order, and what
  is reported.
- `app/` sends the messages with `objc2` and drives the machines. Its public
  functions are `configure_for_live_resize`, `set_contents_gravity_top_left`,
  `set_contents_scale`, `view_backing_scale` and `drawable_texture_size`; it is
  empty on platforms other than macOS.
- `tests/` runs the machines on concrete answers.
