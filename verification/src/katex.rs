//! The destination node model: every node kind of the target math renderer
//! that this crate can emit, together with the symbol table that classifies
//! single characters.

pub mod types;
pub mod node;
pub mod symbol;
pub mod constructor;
