//! A minimal, type-parameterized raw storage buffer.
//!
//! The one component, [`array::RawArray`], owns a contiguous block of
//! storage sized for a whole number of elements of a fixed type `T`, and
//! offers operations to allocate, resize and grow that block. It never
//! constructs, reads or drops values of `T`: managing the lifetime of the
//! elements kept in the storage is the business of a higher-level
//! collection built on top of it.

pub mod array;
