//! Condenses Rust source trees for context-limited consumers: function
//! bodies, documentation and test-only code are selectively stripped from a
//! parsed syntax tree while signatures and semantically meaningful bodies
//! are kept.  The tree model, the classification rules and the single
//! transformation pass live here and are verified; parsing source text into
//! the tree and rendering it back are left to callers.

pub mod classify;
pub mod laws;
pub mod normalize;
pub mod paths;
pub mod processor;
pub mod significance;
pub mod text;
pub mod transformer;
pub mod tree;
