//! Rendering of structured documentation comments as Rustdoc text.
//!
//! [`ast`] holds the documentation model, [`generator`] turns a model into text.

pub mod ast;
pub mod generator;
