//! Safe, verified core of a binding to a native embedded key-value engine.
//!
//! The engine reports each outcome through raw buffers and an
//! error-string-or-null convention; this crate turns those plain values into
//! owned buffers and a three-way read result, and drives a user merge function
//! over the operand lists that the engine hands to its merge callbacks.

pub mod merge;
pub mod result;
pub mod status;
pub mod vector;
