//! The expression-graph core of a WebAssembly transformation library.
//!
//! A function body is held as a graph of nodes in an arena. Every operand of
//! a node is a reference, by id, to another node of the same arena, and every
//! control frame (a block, a loop, an arm of a conditional, the body of the
//! function) is a node like any other, so that branches name their targets
//! by id.
pub mod arena;
pub mod function;
pub mod ir;
pub mod locals;
pub mod text;
pub mod ty;

pub use crate::ty::ValType;
