//! Wayland input method logic.
//!
//! [`input_method`] follows the `zwp_input_method_v2` protocol, for programs
//! that act as an input method; [`text_input`] follows `zwp_text_input_v3`, for
//! programs that receive text from one.
pub mod async_stream;
pub mod input_method;
pub mod laws;
pub mod text_input;

pub use input_method::{InputMethod, InputMethodData, InputMethodHandle, PopupSurface};
pub use text_input::{TextInput, TextInputData, TextInputEvent};
