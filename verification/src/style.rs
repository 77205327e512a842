pub mod alignment;
pub mod direction;
pub mod keyword_laws;
pub mod laws;
pub mod parse;
pub mod parse_laws;
