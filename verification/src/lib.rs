//! Conversion of typeset mathematical expression trees into the parse-node
//! format of a well-known math rendering library.
//!
//! The crate models the source expression tree as [`content::Content`], the
//! destination tree as [`katex::Node`], and proves that the converter in
//! [`converter`] produces exactly the tree described by the specification
//! functions in [`semantics`].

pub mod error;
pub mod strings;
pub mod katex;
pub mod content;
pub mod node;
pub mod utils;
pub mod semantics;
pub mod converter;
pub mod laws;
pub mod symbol;

use vstd::prelude::*;

verus! {

} // verus!
