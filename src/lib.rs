//! Checkbox and radio widgets for a browser-rendered GUI: plain values that
//! render to a small labelled-input fragment and turn a click into a message.
pub mod checkbox;
pub mod css;
pub mod node;
pub mod radio;

pub use checkbox::{Checkbox, Toggle};
pub use css::{Css, Length, Rule};
pub use node::{Attribute, Fragment, Input};
pub use radio::Radio;
