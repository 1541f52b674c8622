//! Unchecked, aliasable handles to values kept in a manually managed store.
//!
//! A value is placed in an [`Arena`] by [`U::new`], which hands back a handle
//! that names its slot. Handles are duplicated by `clone`, which copies the
//! address and never the value, so every duplicate reads and writes the same
//! storage. Storage is given back with [`U::free`]; nothing counts the handles
//! that still name it.

mod arena;
pub mod laws;

pub use arena::{Arena, U};
