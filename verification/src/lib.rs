//! Decision logic for glitch-free live resize of a `CAMetalLayer` on macOS.
//!
//! During a live window resize the compositor lags behind the app and, by
//! default, stretches the previous drawable over the new bounds. The fix is two
//! one-time settings on the layer (`contentsGravity = topLeft` and
//! `contentsScale = window.backingScaleFactor`) plus one per-frame discipline
//! (render at the size of the drawable's texture, not at a cached size).
//!
//! Talking to AppKit and Core Animation is Objective-C messaging; this crate
//! holds what is decided between the messages. Each operation is a small
//! state machine: it names the next message to send as a request, and takes
//! the answer to that message as a reply. The caller performs the requests and
//! feeds back the replies until the machine reports that it is done.

pub mod backing_scale;
pub mod configure;
pub mod drawable_size;
pub mod gravity;
