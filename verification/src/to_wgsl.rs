//! The rules that turn the source syntax of a function or a declaration
//! into WGSL.

pub mod attributes;
pub mod casts;
pub mod iteration_position;
pub mod struct_literals;
pub mod subset;
pub mod types;
pub mod variables;
