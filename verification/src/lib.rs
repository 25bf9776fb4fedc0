//! A growable array that manages its own buffer of slots, with forward and
//! backward views over its elements.
//!
//! [`Vec`] owns a buffer of slots, of which the first `len()` hold the live
//! elements. It grows by doubling, and never shrinks unless asked to.
//! [`VecIterator`] and [`VecIteratorMut`] walk the live elements in either
//! direction. The module `laws` states what holds across several operations.

pub mod iter;
pub mod laws;
pub mod storage;

pub use iter::VecIterator;
pub use iter::VecIteratorMut;
pub use storage::Vec;
