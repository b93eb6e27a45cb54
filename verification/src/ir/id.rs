//! Identifiers of nodes, locals and module-level entities.
use vstd::prelude::*;

verus! {

/// The identity of one node of a function's graph.
///
/// An id names the arena that issued it and the position of the node in that
/// arena. Two ids are equal when both parts are: ids of different functions
/// never compare equal because of an equal position alone.
#[derive(Clone, Copy, Debug, PartialEq, Eq, Hash, PartialOrd, Ord, Structural)]
pub struct ExprId {
    /// The arena that issued this id.
    pub arena: u32,
    /// The position of the node within its arena.
    pub index: usize,
}

impl ExprId {
    /// The id of the node at position `index` of the arena `arena`.
    pub fn new(arena: u32, index: usize) -> (id: ExprId)
        ensures
            id == (ExprId { arena, index }),
    {
        ExprId { arena, index }
    }

    /// The position of the node within its arena.
    pub fn index(&self) -> (index: usize)
        ensures
            index == self.index,
    {
        self.index
    }
}

/// The identity of a node that is a block.
///
/// A branch names its target by a `BlockId`, and a conditional its two arms.
/// That the node behind the id is in fact a block is part of what makes a
/// function well formed.
#[derive(Clone, Copy, Debug, PartialEq, Eq, Hash, PartialOrd, Ord, Structural)]
pub struct BlockId(pub ExprId);

impl BlockId {
    /// The block id that refers to the node `id`.
    pub fn new_id(id: ExprId) -> (block: BlockId)
        ensures
            block == BlockId(id),
    {
        BlockId(id)
    }

    /// The id of the block seen as a plain node.
    pub fn expr_id(&self) -> (id: ExprId)
        ensures
            id == self.0,
    {
        self.0
    }
}

/// The identity of a local variable or parameter.
#[derive(Clone, Copy, Debug, PartialEq, Eq, Hash, PartialOrd, Ord, Structural)]
pub struct LocalId {
    /// The registry that issued this id.
    pub arena: u32,
    /// The position of the local within its registry.
    pub index: usize,
}

impl LocalId {
    /// The id of the local at position `index` of the registry `arena`.
    pub fn new(arena: u32, index: usize) -> (id: LocalId)
        ensures
            id == (LocalId { arena, index }),
    {
        LocalId { arena, index }
    }

    /// The position of the local within its registry.
    pub fn index(&self) -> (index: usize)
        ensures
            index == self.index,
    {
        self.index
    }
}

/// A key into the module's registry of functions.
///
/// The graph carries such keys without looking behind them: only the
/// registry that issued one can say what it refers to.
#[derive(Clone, Copy, Debug, PartialEq, Eq, Hash, Structural)]
pub struct FunctionId(pub usize);

/// A key into the module's registry of globals.
#[derive(Clone, Copy, Debug, PartialEq, Eq, Hash, Structural)]
pub struct GlobalId(pub usize);

/// A key into the module's registry of memories.
#[derive(Clone, Copy, Debug, PartialEq, Eq, Hash, Structural)]
pub struct MemoryId(pub usize);

/// A key into the module's registry of tables.
#[derive(Clone, Copy, Debug, PartialEq, Eq, Hash, Structural)]
pub struct TableId(pub usize);

/// A key into the module's registry of function types.
#[derive(Clone, Copy, Debug, PartialEq, Eq, Hash, Structural)]
pub struct TypeId(pub usize);

} // verus!
