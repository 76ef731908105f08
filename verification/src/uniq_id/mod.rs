//! Identifier generators.
//!
//! - [`GlobalSeq`]: sequential identifiers.
//! - [`GlobalUniq`]: random identifiers, written in base 62.

pub mod seq;
pub mod uniq;

pub use seq::GlobalSeq;
pub use uniq::GlobalUniq;
