//! Knot tying for reference-counted pointers.
//!
//! A value sometimes has to carry, as one of its own fields, a non-owning
//! back-reference to itself.  Building such a value naively needs two phases:
//! allocate it, then write the self-reference once the pointer exists.  The
//! moment the pointer is shared, that late write races every other owner.
//!
//! This crate makes the single write safe and exactly-once:
//!
//! * [`traits`] states the capability contract of a strong/weak
//!   reference-counted pointer family, over a mathematical model of its
//!   allocations (slot count, strong count, payload, back-reference).
//! * [`generic`] holds the single-assignment back-reference cell
//!   [`TieWeak`], the shape [`Tied`] of a value with such a cell, and the
//!   construction protocol [`tie`], which allocates, downgrades the fresh
//!   strong pointer into the cell, and only then hands the pointer out.
//! * [`atomic_impl`] and [`local_impl`] are the two conforming families:
//!   one for values meant to be shared across threads, one thread-confined.
//! * [`laws`] proves the properties the design is for: the round trip from
//!   a tied cell back to its owner, stability of the payload while a strong
//!   pointer lives, permanence of death after the last release, that a cell
//!   is tied at most once, and that the two families behave identically.

pub mod atomic_impl;
pub mod generic;
pub mod laws;
pub mod local_impl;
pub mod traits;

pub use generic::Tied;
pub use generic::TieWeak;
pub use generic::tie;
