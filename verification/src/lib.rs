//! A value-passing protocol for a boundary between a native library and a
//! foreign caller that shares no allocator, exception mechanism or string
//! type with it.
//!
//! A call across the boundary returns a result envelope: either a success
//! carrying an opaque payload handle, or a failure carrying an error record
//! with an error code and a human-readable message. Every allocation the
//! protocol makes is owned by the foreign caller, which must release each one
//! exactly once through the matching release function, innermost first.
//!
//! Raw foreign memory is represented here by explicit handles into a [`memory::Heap`],
//! which tracks every outstanding allocation, so that the construction and
//! release contracts can be stated and proved precisely.

pub mod memory;
pub mod result;
pub mod string;
