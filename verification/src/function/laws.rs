//! What holds of every function, whatever was inserted and replaced.
use crate::function::LocalFunction;
use crate::ir::{BlockKind, Expr, ExprId, LocalId, LocalSet, LocalTee};
use vstd::prelude::*;

verus! {

/// The nodes that are left when the nodes `changes` have been written, one
/// after the other, each over the node at its position.
pub open spec fn overwritten(nodes: Seq<Expr>, changes: Seq<(ExprId, Expr)>) -> Seq<Expr>
    decreases changes.len(),
{
    if changes.len() == 0 {
        nodes
    } else {
        overwritten(nodes, changes.drop_last()).update(
            changes.last().0.index as int,
            changes.last().1,
        )
    }
}

impl LocalFunction {
    /// In a well-formed function a branch carries as many values as each of
    /// its targets expects: the results of the target where it is a block,
    /// an arm of a conditional or the entry of the function, and the
    /// parameters of the target where it is a loop.
    pub proof fn lemma_branch_arity(&self, id: ExprId, which: int)
        requires
            self.well_formed(),
            self.contains(id),
            0 <= which < self.node(id).targets().len(),
        ensures
            self.contains(self.node(id).targets()[which].0),
            self.node(self.node(id).targets()[which].0) matches Expr::Block(target) && (
            target.kind == BlockKind::Loop ==> self.node(id).branch_args().len()
                == target.params@.len()) && (target.kind != BlockKind::Loop ==> self.node(
                id,
            ).branch_args().len() == target.results@.len()),
    {
        let node = self.nodes()[id.index as int];
        assert(self.accepts(node));
        assert(self.is_target(node.targets()[which], node.branch_args().len()));
    }

    /// However many nodes are overwritten, the function has the ids that it
    /// had: none is lost, and none comes to refer to nothing.
    pub proof fn lemma_replace_keeps_ids(
        before: LocalFunction,
        changes: Seq<(ExprId, Expr)>,
        after: LocalFunction,
    )
        requires
            forall|k: int| 0 <= k < changes.len() ==> before.contains(#[trigger] changes[k].0),
            after.nodes() == overwritten(before.nodes(), changes),
            after.arena_id() == before.arena_id(),
        ensures
            forall|id: ExprId| before.contains(id) <==> after.contains(id),
    {
        Self::lemma_overwritten_len(before, changes);
    }

    /// Overwriting nodes of a function leaves the number of its nodes as it
    /// is.
    proof fn lemma_overwritten_len(before: LocalFunction, changes: Seq<(ExprId, Expr)>)
        requires
            forall|k: int| 0 <= k < changes.len() ==> before.contains(#[trigger] changes[k].0),
        ensures
            overwritten(before.nodes(), changes).len() == before.nodes().len(),
        decreases changes.len(),
    {
        if changes.len() > 0 {
            let front = changes.drop_last();
            assert forall|k: int| 0 <= k < front.len() implies before.contains(
                #[trigger] front[k].0,
            ) by {
                assert(front[k] == changes[k]);
            }
            Self::lemma_overwritten_len(before, front);
            assert(before.contains(changes[changes.len() - 1].0));
        }
    }

    /// A walk depends on the operands of the nodes alone: in two functions
    /// whose nodes have, position by position, the same operands, the walks
    /// from a node reach the same nodes in the same order, whatever else the
    /// nodes hold and wherever their branches go.
    pub proof fn lemma_walk_follows_operands(
        &self,
        other: LocalFunction,
        id: ExprId,
        depth: nat,
    )
        requires
            self.well_formed(),
            self.contains(id),
            other.nodes().len() == self.nodes().len(),
            forall|i: int|
                0 <= i < self.nodes().len() ==> (#[trigger] other.nodes()[i]).operands()
                    == self.nodes()[i].operands(),
        ensures
            other.walk(id, depth) == self.walk(id, depth),
        decreases depth, 0nat, 0nat,
    {
        if depth > 0 {
            assert(other.nodes()[id.index as int].operands() == self.nodes()[id.index as int].operands());
            assert(self.accepts(self.nodes()[id.index as int]));
            self.lemma_walk_each_follows_operands(
                other,
                self.node(id).operands(),
                (depth - 1) as nat,
            );
        }
    }

    /// Walks from several nodes depend on the operands of the nodes alone.
    proof fn lemma_walk_each_follows_operands(
        &self,
        other: LocalFunction,
        ids: Seq<ExprId>,
        depth: nat,
    )
        requires
            self.well_formed(),
            forall|i: int| 0 <= i < ids.len() ==> self.contains(#[trigger] ids[i]),
            other.nodes().len() == self.nodes().len(),
            forall|i: int|
                0 <= i < self.nodes().len() ==> (#[trigger] other.nodes()[i]).operands()
                    == self.nodes()[i].operands(),
        ensures
            other.walk_each(ids, depth) == self.walk_each(ids, depth),
        decreases depth, 1nat, ids.len(),
    {
        if ids.len() > 0 {
            let front = ids.drop_last();
            assert forall|i: int| 0 <= i < front.len() implies self.contains(
                #[trigger] front[i],
            ) by {
                assert(front[i] == ids[i]);
            }
            self.lemma_walk_each_follows_operands(other, front, depth);
            self.lemma_walk_follows_operands(other, ids.last(), depth);
        }
    }

    /// A `local.tee` is walked as the `local.set` of the same local to the
    /// same value is: the walk reaches the node and then what computes the
    /// value, once. And like a `local.set`, it lets control go on to the
    /// instruction that follows it.
    pub proof fn lemma_tee_walks_as_set(
        &self,
        other: LocalFunction,
        at: ExprId,
        local: LocalId,
        value: ExprId,
        root: ExprId,
        depth: nat,
    )
        requires
            self.well_formed(),
            self.contains(at),
            self.contains(root),
            self.node(at) == Expr::LocalTee(LocalTee { local, value }),
            other.nodes() == self.nodes().update(
                at.index as int,
                Expr::LocalSet(LocalSet { local, value }),
            ),
        ensures
            self.node(at).operands() == seq![value],
            other.node(at).operands() == seq![value],
            !self.node(at).diverts(),
            !other.node(at).diverts(),
            other.walk(root, depth) == self.walk(root, depth),
    {
        self.lemma_walk_follows_operands(other, root, depth);
    }
}

} // verus!
