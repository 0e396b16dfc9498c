//! The protocol logic of an input method engine, without any I/O.
//!
//! An input method engine sits between the keyboard and a text field: it is
//! told when a field gains focus, shows composing text there, commits text and
//! deletes text around the cursor. This crate holds what such an engine decides
//! on Linux (Wayland, X11, IBus), Windows and macOS. Connections are not part
//! of it: a program hands in what the window system said, as plain values, and
//! performs the requests that come back.
//!
//! - [`types`](InputMethodEvent): events, hints and the state that a program
//!   sees, shared by every platform
//! - [`wayland`]: input methods and text inputs over the Wayland protocols
//! - [`x11`], [`linux_xtest`]: focus tracking and typing on X11
//! - [`typing`]: what faked keys type, read back by a keyboard
//! - [`ibus`]: input contexts of the IBus service
//! - [`linux`]: the choice between those three
//! - [`windows`], [`macos`]: the other desktop systems
//! - [`text`], [`deletion`]: UTF-16, hexadecimal digits, deletion key strokes
pub mod deletion;
mod error;
pub mod ibus;
pub mod linux;
pub mod linux_xtest;
pub mod macos;
pub mod text;
mod types;
pub mod typing;
pub mod wayland;
pub mod windows;
pub mod x11;

pub use error::{commit_outcome, connection_outcome, Error};
pub use linux::{DisplayServer, InputMethod};
pub use types::{
    ChangeCause, ContentHint, ContentPurpose, CursorRect, InputMethodEvent, InputMethodState,
    KeyState, Modifiers, PreeditStyle, Status,
};
