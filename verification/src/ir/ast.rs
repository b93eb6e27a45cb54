//! Nodes by their kinds.
use crate::ir::{Block, BlockId, Expr, ExprId};
use vstd::prelude::*;
use vstd::std_specs::convert::{FromSpecImpl, IntoSpec};

verus! {

impl From<BlockId> for ExprId {
    fn from(id: BlockId) -> (plain: ExprId) {
        id.0
    }
}

impl FromSpecImpl<BlockId> for ExprId {
    open spec fn obeys_from_spec() -> bool {
        true
    }

    open spec fn from_spec(id: BlockId) -> ExprId {
        id.0
    }
}

impl From<Block> for Expr {
    fn from(node: Block) -> (expr: Expr) {
        Expr::Block(node)
    }
}

impl FromSpecImpl<Block> for Expr {
    open spec fn obeys_from_spec() -> bool {
        true
    }

    open spec fn from_spec(node: Block) -> Expr {
        Expr::Block(node)
    }
}

/// A trait for anything that is a node of the graph, and so has an id type
/// of its own.
pub trait Ast: Into<Expr> {
    /// The identifier type for this kind of node.
    type Id: Into<ExprId>;

    /// Create a new identifier given an `ExprId` that references a node of
    /// this kind. Seen as a plain id again, it is the id given.
    fn new_id(id: ExprId) -> (typed: Self::Id)
        ensures
            typed.into_spec() == id,
    ;
}

impl Ast for Block {
    type Id = BlockId;

    fn new_id(id: ExprId) -> (typed: BlockId) {
        BlockId(id)
    }
}

} // verus!
