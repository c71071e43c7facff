//! Compile-time size assertions for structure declarations.
//!
//! The library turns the text of an attribute argument and the text of the
//! annotated declaration into the text of an expansion: an unnamed constant
//! whose initializer asserts the structure's size, followed by the declaration
//! exactly as it was written.
pub mod check;
pub mod decimal;
pub mod expand;
pub mod laws;
