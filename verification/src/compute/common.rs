pub mod alignment;
