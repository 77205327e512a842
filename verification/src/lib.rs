//! CSS box-alignment values (`align-*` and `justify-*`), their CSS syntax, and the decisions that
//! the Flexbox and Grid algorithms make with them.
pub mod compute;
pub mod css;
pub mod prelude;
pub mod style;

pub use compute::common::alignment::ContentOffset;
pub use style::alignment::{AlignContent, AlignItems, AlignSelf, JustifyContent, JustifyItems, JustifySelf};
pub use style::direction::Direction;
pub use style::parse::{CssKeyword, CssParseError};
