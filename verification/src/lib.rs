//! Indices into a growable vector that are checked once and stay valid.
//!
//! A [`FixedVec`] wraps a `Vec` and exposes only operations that keep or grow
//! its length. An [`Index`] or a [`CheckedRange`] obtained from it therefore
//! keeps pointing inside the vector for as long as the vector stays wrapped.
pub mod fixed;
pub mod growth;
pub mod index;
pub mod range;

pub use fixed::FixedVec;
pub use growth::Growth;
pub use index::Index;
pub use range::CheckedRange;
