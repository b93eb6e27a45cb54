//! The graph of one function.
pub mod laws;
pub mod once;
pub mod walk;

use crate::arena::{
    arena_alloc, arena_exprs, arena_get, arena_get_mut, arena_ident, arena_len, arena_new,
};
use crate::ir::{Block, BlockId, BlockKind, Expr, ExprId};
use crate::ty::ValType;
use id_arena::Arena;
use vstd::prelude::*;

verus! {

/// The body of one function: the arena of its nodes and the block at which
/// it is entered.
///
/// Nodes are only ever added or overwritten in place, so an id, once issued,
/// refers to a node for as long as the function lives.
#[derive(Debug)]
pub struct LocalFunction {
    exprs: Arena<Expr>,
    entry: BlockId,
}

impl LocalFunction {
    /// The nodes of this function, in the order in which they were inserted.
    pub closed spec fn nodes(&self) -> Seq<Expr> {
        arena_exprs(self.exprs)
    }

    /// The number that the ids of this function carry.
    pub closed spec fn arena_id(&self) -> u32 {
        arena_ident(self.exprs)
    }

    /// The block at which this function is entered.
    pub closed spec fn spec_entry(&self) -> BlockId {
        self.entry
    }

    /// Whether `id` is an id of this function: one that it has issued.
    pub open spec fn spec_contains(&self, id: ExprId) -> bool {
        id.arena == self.arena_id() && id.index < self.nodes().len()
    }

    /// The node that `id` refers to.
    pub open spec fn node(&self, id: ExprId) -> Expr
        recommends
            self.contains(id),
    {
        self.nodes()[id.index as int]
    }

    /// Whether `id` refers to a node of this function that is a block.
    pub open spec fn spec_is_block(&self, id: BlockId) -> bool {
        self.contains(id.0) && self.node(id.0) is Block
    }

    /// Whether `id` refers to a block of this function to which a branch
    /// brings `args` values.
    pub open spec fn is_target(&self, id: BlockId, args: nat) -> bool {
        self.is_block(id) && self.node(id.0)->Block_0.branch_arity() == args
    }

    /// Whether every reference that `node` holds is good in this function:
    /// each operand is a node of the function, each arm of a conditional and
    /// each target of a branch is a block of the function, and a branch
    /// carries as many values as each of its targets expects.
    pub open spec fn accepts(&self, node: Expr) -> bool {
        &&& forall|i: int|
            0 <= i < node.operands().len() ==> self.contains(#[trigger] node.operands()[i])
        &&& forall|i: int|
            0 <= i < node.targets().len() ==> self.is_target(
                #[trigger] node.targets()[i],
                node.branch_args().len(),
            )
        &&& node matches Expr::IfElse(i) ==> self.is_block(i.consequent) && self.is_block(
            i.alternative,
        )
    }

    /// Whether this function is well formed: it is entered at a block of its
    /// own that is marked as the entry of a function, and it accepts each of
    /// its nodes.
    pub open spec fn well_formed(&self) -> bool {
        &&& self.is_block(self.spec_entry())
        &&& self.node(self.spec_entry().0)->Block_0.kind == BlockKind::FunctionEntry
        &&& forall|i: int| 0 <= i < self.nodes().len() ==> self.accepts(#[trigger] self.nodes()[i])
    }

    /// A new function whose only node is its entry block, with an empty body.
    pub fn new(params: Vec<ValType>, results: Vec<ValType>) -> (func: LocalFunction)
        ensures
            func.nodes().len() == 1,
            func.spec_entry().0 == (ExprId { arena: func.arena_id(), index: 0 }),
            func.nodes()[0] matches Expr::Block(b) && b.kind == BlockKind::FunctionEntry
                && b.params == params && b.results == results && b.exprs@.len() == 0,
            func.well_formed(),
    {
        let mut exprs = arena_new();
        let block = Block::new(BlockKind::FunctionEntry, params, results);
        let id = arena_alloc(&mut exprs, Expr::Block(block));
        let func = LocalFunction { exprs, entry: BlockId(id) };
        proof {
            assert(func.nodes() =~= seq![Expr::Block(block)]);
            assert(func.nodes()[0].operands() =~= Seq::<ExprId>::empty());
        }
        func
    }

    /// The block at which this function is entered.
    #[verifier::when_used_as_spec(spec_entry)]
    pub fn entry(&self) -> (entry: BlockId)
        ensures
            entry == self.spec_entry(),
    {
        self.entry
    }

    /// The number of nodes of this function.
    pub fn len(&self) -> (len: usize)
        ensures
            len == self.nodes().len(),
    {
        arena_len(&self.exprs)
    }

    /// Whether `id` is an id of this function.
    #[verifier::when_used_as_spec(spec_contains)]
    pub fn contains(&self, id: ExprId) -> (found: bool)
        ensures
            found == self.spec_contains(id),
    {
        arena_get(&self.exprs, id).is_some()
    }

    /// Whether `id` refers to a node of this function that is a block.
    #[verifier::when_used_as_spec(spec_is_block)]
    pub fn is_block(&self, id: BlockId) -> (found: bool)
        ensures
            found == self.spec_is_block(id),
    {
        match arena_get(&self.exprs, id.0) {
            Some(Expr::Block(_)) => true,
            _ => false,
        }
    }

    /// Whether `id` refers to a block of this function to which a branch
    /// brings `args` values.
    fn check_target(&self, id: BlockId, args: usize) -> (found: bool)
        ensures
            found == self.is_target(id, args as nat),
    {
        match arena_get(&self.exprs, id.0) {
            Some(Expr::Block(block)) => block.arity() == args,
            _ => false,
        }
    }

    /// Whether every reference that `node` holds is good in this function,
    /// so that the function can take the node in.
    pub fn check_node(&self, node: &Expr) -> (ok: bool)
        ensures
            ok == self.accepts(*node),
    {
        let operands = node.operand_ids();
        let mut i: usize = 0;
        while i < operands.len()
            invariant
                i <= operands.len(),
                operands@ == node.operands(),
                forall|k: int| 0 <= k < i ==> self.contains(#[trigger] node.operands()[k]),
            decreases operands.len() - i,
        {
            if !self.contains(operands[i]) {
                return false;
            }
            i = i + 1;
        }
        let targets = node.target_ids();
        let args = node.branch_arg_count();
        let mut j: usize = 0;
        while j < targets.len()
            invariant
                j <= targets.len(),
                targets@ == node.targets(),
                args == node.branch_args().len(),
                forall|k: int|
                    0 <= k < j ==> self.is_target(
                        #[trigger] node.targets()[k],
                        node.branch_args().len(),
                    ),
            decreases targets.len() - j,
        {
            if !self.check_target(targets[j], args) {
                return false;
            }
            j = j + 1;
        }
        match node {
            Expr::IfElse(arms) => self.is_block(arms.consequent) && self.is_block(
                arms.alternative,
            ),
            _ => true,
        }
    }

    /// Whether this function is well formed.
    pub fn is_well_formed(&self) -> (ok: bool)
        ensures
            ok == self.well_formed(),
    {
        let entry = self.entry;
        match arena_get(&self.exprs, entry.0) {
            Some(Expr::Block(block)) => {
                match block.kind {
                    BlockKind::FunctionEntry => {},
                    _ => {
                        return false;
                    },
                }
            },
            _ => {
                return false;
            },
        }
        let arena = entry.0.arena;
        let len = self.len();
        let mut i: usize = 0;
        while i < len
            invariant
                i <= len,
                len == self.nodes().len(),
                arena == self.arena_id(),
                forall|k: int| 0 <= k < i ==> self.accepts(#[trigger] self.nodes()[k]),
            decreases len - i,
        {
            let node = self.get(ExprId { arena, index: i });
            if !self.check_node(node) {
                return false;
            }
            i = i + 1;
        }
        true
    }

    /// Appends `node` to the function and returns the id by which it is
    /// known from now on, an id that was never issued before.
    pub fn insert(&mut self, node: Expr) -> (id: ExprId)
        requires
            old(self).nodes().len() < usize::MAX,
            old(self).accepts(node),
        ensures
            final(self).nodes() == old(self).nodes().push(node),
            final(self).arena_id() == old(self).arena_id(),
            final(self).spec_entry() == old(self).spec_entry(),
            id == (ExprId { arena: old(self).arena_id(), index: old(self).nodes().len() as usize }),
            !old(self).contains(id),
            final(self).contains(id),
            old(self).well_formed() ==> final(self).well_formed(),
    {
        let id = arena_alloc(&mut self.exprs, node);
        proof {
            Self::lemma_push_keeps_well_formed(*old(self), *self, node);
        }
        id
    }

    /// The node that `id` refers to.
    pub fn get(&self, id: ExprId) -> (node: &Expr)
        requires
            self.contains(id),
        ensures
            *node == self.node(id),
    {
        arena_get(&self.exprs, id).unwrap()
    }

    /// The block that `id` refers to.
    pub fn block(&self, id: BlockId) -> (block: &Block)
        requires
            self.is_block(id),
        ensures
            self.node(id.0) == Expr::Block(*block),
    {
        match self.get(id.0) {
            Expr::Block(block) => block,
            _ => vstd::pervasive::unreached(),
        }
    }

    /// The node that `id` refers to, for writing. What the caller leaves
    /// there takes the place of the node; no other node changes.
    pub fn get_mut(&mut self, id: ExprId) -> (node: &mut Expr)
        requires
            old(self).contains(id),
        ensures
            *node == old(self).node(id),
            final(self).nodes() == old(self).nodes().update(id.index as int, *final(node)),
            final(self).arena_id() == old(self).arena_id(),
            final(self).spec_entry() == old(self).spec_entry(),
    {
        arena_get_mut(&mut self.exprs, id)
    }

    /// Overwrites the node that `id` refers to with `node`. The id, and every
    /// other id, stays good, and every other node stays as it is.
    pub fn replace(&mut self, id: ExprId, node: Expr)
        requires
            old(self).contains(id),
        ensures
            final(self).nodes() == old(self).nodes().update(id.index as int, node),
            final(self).arena_id() == old(self).arena_id(),
            final(self).spec_entry() == old(self).spec_entry(),
            forall|other: ExprId| old(self).contains(other) <==> final(self).contains(other),
            old(self).well_formed() && old(self).accepts(node) && old(self).node(
                id,
            ).same_frame(node) ==> final(self).well_formed(),
    {
        let slot = self.get_mut(id);
        *slot = node;
        proof {
            Self::lemma_update_keeps_well_formed(*old(self), *self, id, node);
        }
    }

    /// Appends the node `child` to the body of the block `block`, after what
    /// the body holds already. Nothing else about the block changes, and no
    /// other node changes.
    pub fn append(&mut self, block: BlockId, child: ExprId)
        requires
            old(self).is_block(block),
            old(self).contains(child),
        ensures
            final(self).nodes().len() == old(self).nodes().len(),
            final(self).arena_id() == old(self).arena_id(),
            final(self).spec_entry() == old(self).spec_entry(),
            forall|i: int|
                0 <= i < old(self).nodes().len() && i != block.0.index ==> final(self).nodes()[i]
                    == old(self).nodes()[i],
            final(self).node(block.0) matches Expr::Block(after) && old(self).node(
                block.0,
            ) matches Expr::Block(before) && after.kind == before.kind && after.params
                == before.params && after.results == before.results && after.exprs@
                == before.exprs@.push(child),
            old(self).well_formed() ==> final(self).well_formed(),
    {
        let node = self.get_mut(block.0);
        match node {
            Expr::Block(body) => {
                body.exprs.push(child);
            },
            _ => {},
        }
        proof {
            let before = old(self).node(block.0);
            let after = self.node(block.0);
            assert(self.nodes() == old(self).nodes().update(block.0.index as int, after));
            if old(self).well_formed() {
                assert(old(self).accepts(old(self).nodes()[block.0.index as int]));
                assert forall|i: int| 0 <= i < after.operands().len() implies old(self).contains(
                    #[trigger] after.operands()[i],
                ) by {
                    if i < before.operands().len() {
                        assert(after.operands()[i] == before.operands()[i]);
                    }
                }
                assert(after.targets() =~= before.targets());
                assert(old(self).accepts(after));
                Self::lemma_update_keeps_well_formed(*old(self), *self, block.0, after);
            }
        }
    }

    /// A function that differs from a well-formed one by one more node,
    /// which the first accepted, is well formed.
    proof fn lemma_push_keeps_well_formed(before: LocalFunction, after: LocalFunction, node: Expr)
        requires
            before.accepts(node),
            after.nodes() == before.nodes().push(node),
            after.arena_id() == before.arena_id(),
            after.spec_entry() == before.spec_entry(),
        ensures
            before.well_formed() ==> after.well_formed(),
    {
        if before.well_formed() {
            assert forall|i: int| 0 <= i < after.nodes().len() implies after.accepts(
                #[trigger] after.nodes()[i],
            ) by {
                let n = after.nodes()[i];
                assert(before.accepts(n)) by {
                    if i < before.nodes().len() {
                        assert(n == before.nodes()[i]);
                    }
                }
                assert forall|k: int| 0 <= k < n.targets().len() implies after.is_target(
                    #[trigger] n.targets()[k],
                    n.branch_args().len(),
                ) by {
                    assert(before.is_target(n.targets()[k], n.branch_args().len()));
                }
            }
        }
    }

    /// A function that differs from a well-formed one in one node is well
    /// formed if the first accepted the new node and the new node is the same
    /// control frame as the old.
    proof fn lemma_update_keeps_well_formed(
        before: LocalFunction,
        after: LocalFunction,
        id: ExprId,
        node: Expr,
    )
        requires
            before.contains(id),
            after.nodes() == before.nodes().update(id.index as int, node),
            after.arena_id() == before.arena_id(),
            after.spec_entry() == before.spec_entry(),
        ensures
            before.well_formed() && before.accepts(node) && before.node(id).same_frame(node)
                ==> after.well_formed(),
    {
        if before.well_formed() && before.accepts(node) && before.node(id).same_frame(node) {
            assert forall|b: BlockId, args: nat| before.is_target(b, args) implies after.is_target(
                b,
                args,
            ) by {}
            assert forall|b: BlockId| before.is_block(b) implies after.is_block(b) by {}
            assert forall|i: int| 0 <= i < after.nodes().len() implies after.accepts(
                #[trigger] after.nodes()[i],
            ) by {
                let n = after.nodes()[i];
                assert(before.accepts(n)) by {
                    if i != id.index {
                        assert(n == before.nodes()[i]);
                    }
                }
                assert forall|k: int| 0 <= k < n.targets().len() implies after.is_target(
                    #[trigger] n.targets()[k],
                    n.branch_args().len(),
                ) by {
                    assert(before.is_target(n.targets()[k], n.branch_args().len()));
                }
            }
        }
    }
}

} // verus!
