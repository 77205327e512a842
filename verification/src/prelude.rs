//! Commonly used types
pub use crate::style::alignment::{AlignContent, AlignItems, AlignSelf, JustifyContent, JustifyItems, JustifySelf};
pub use crate::style::direction::Direction;
