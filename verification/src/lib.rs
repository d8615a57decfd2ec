//! Reconstruction of the drag-and-drop action control structure of a legacy
//! game-authoring format.
//!
//! Source data arrives as a flat, ordered list of action records; nesting
//! (groups, conditionals, else-branches) is encoded implicitly through
//! per-record marker kinds. The heart of the crate is [`action::Tree::from_list`],
//! which consumes the flat list and produces a well-formed forest of executable
//! nodes, resolving each node's body (a bound built-in operation or a compiled
//! code body) and its optional if/else subtrees.

pub mod action;
pub mod compile;
pub mod laws;
pub mod record;
pub mod registry;
