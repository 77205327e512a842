pub mod common;
