//! A growable, indexable sequence container: a minimal dynamic array.
//!
//! The container owns a contiguous block of storage sized to its capacity,
//! tracks a logical length bounded by that capacity, and keeps every
//! allocated slot initialized with the element type's default value until
//! a caller-supplied element takes its place.

pub mod elem;
pub mod vector;
