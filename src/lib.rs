//! A widget that captures a key press, a pointer button press, or either,
//! as a binding.

pub mod input;
pub mod target;
pub mod widget;

pub use target::{BindTarget, Binding, EitherBind, KeyBind, KeyOrPointer, PointerBind};
pub use widget::{show_frame, Bind, Decision, InputEvent};
