//! A small library around an embedded script engine: it executes script text
//! in a fresh, isolated context, resolves a named global binding, and converts
//! the binding's dynamically typed value into a closed, JSON-like canonical
//! value, returned through a uniform success/failure envelope.
//!
//! - [`value`] holds the two value models: the open, engine-shaped
//!   [`value::DynValue`] and the closed, JSON-like [`value::CanonValue`].
//! - [`bridge`] is the total, panic-free conversion from the dynamic model to
//!   the canonical one, specified by [`bridge::canon_of`].
//! - [`engine`] creates a fresh engine per invocation, runs the script,
//!   resolves the binding and reports every lifecycle failure through the
//!   envelope.
//! - [`envelope`] is the uniform success/failure wrapper.

pub mod bridge;
pub mod engine;
pub mod envelope;
pub mod value;

pub use envelope::Results;
pub use envelope::Student;
pub use envelope::greet;
