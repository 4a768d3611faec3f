//! Input-and-overlay layer for a tiling window manager: a quick-focus picker
//! that labels visible windows with single-key mnemonics, an input-grab
//! retry policy, a key-resolution table, label-overlay geometry, and a
//! directional workspace search that skips workspaces already visible on
//! another output.
//!
//! Everything here is pure decision logic: the surrounding program performs
//! the protocol I/O (grabbing the keyboard, drawing overlays, reading
//! events) and feeds the results to these functions as plain values.

pub mod alphabet;
pub mod grab;
pub mod keys;
pub mod picker;
pub mod render;
pub mod search;

pub use keys::KeyResolution;
pub use picker::{PickerEvent, PickerOutcome, PickerSession};
pub use search::Direction;
