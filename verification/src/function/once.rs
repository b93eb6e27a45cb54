//! A walk reaches each node as often as the node is nested.
//!
//! It leaves out nothing that is nested in its start, and where no node is
//! nested in two places it reaches no node twice, whatever the branches of
//! the function name as their targets.
use crate::function::LocalFunction;
use crate::ir::ExprId;
use vstd::prelude::*;
use vstd::seq_lib::lemma_no_dup_in_concat;

verus! {

/// Something occurs in two sequences put together if it occurs in one of
/// them.
proof fn lemma_contains_concat<A>(a: Seq<A>, b: Seq<A>, x: A)
    ensures
        (a + b).contains(x) <==> a.contains(x) || b.contains(x),
{
    if a.contains(x) {
        let i = choose|i: int| 0 <= i < a.len() && a[i] == x;
        assert((a + b)[i] == x);
    }
    if b.contains(x) {
        let i = choose|i: int| 0 <= i < b.len() && b[i] == x;
        assert((a + b)[a.len() + i] == x);
    }
    if (a + b).contains(x) {
        let i = choose|i: int| 0 <= i < (a + b).len() && (a + b)[i] == x;
        if i < a.len() {
            assert(a[i] == x);
        } else {
            assert(b[i - a.len()] == x);
        }
    }
}

impl LocalFunction {
    /// Whether no node is nested in two places of `within`: no two operands
    /// of nodes of `within`, and no two operands of one of them, are the same
    /// node.
    pub open spec fn nested_once(&self, within: Seq<ExprId>) -> bool {
        forall|p: ExprId, i: int, q: ExprId, j: int|
            #![trigger self.node(p).operands()[i], self.node(q).operands()[j]]
            within.contains(p) && within.contains(q) && 0 <= i < self.node(p).operands().len() && 0
                <= j < self.node(q).operands().len() && self.node(p).operands()[i] == self.node(
                q,
            ).operands()[j] ==> p == q && i == j
    }

    /// A walk reaches its start, and besides it what the walks from the
    /// operands of the start reach.
    proof fn lemma_reach_unfolds(&self, id: ExprId, depth: nat, x: ExprId)
        requires
            depth > 0,
        ensures
            self.walk(id, depth).contains(x) <==> (x == id || self.walk_each(
                self.node(id).operands(),
                (depth - 1) as nat,
            ).contains(x)),
    {
        let below = self.walk_each(self.node(id).operands(), (depth - 1) as nat);
        lemma_contains_concat(seq![id], below, x);
        if x == id {
            assert(seq![id][0] == x);
        }
    }

    /// Walks from several nodes reach what the walk from one of them reaches.
    proof fn lemma_reach_each(&self, ids: Seq<ExprId>, depth: nat, x: ExprId)
        ensures
            self.walk_each(ids, depth).contains(x) <==> exists|i: int|
                0 <= i < ids.len() && self.walk(#[trigger] ids[i], depth).contains(x),
        decreases ids.len(),
    {
        if ids.len() > 0 {
            let front = ids.drop_last();
            self.lemma_reach_each(front, depth, x);
            lemma_contains_concat(self.walk_each(front, depth), self.walk(ids.last(), depth), x);
            if self.walk_each(front, depth).contains(x) {
                let i = choose|i: int|
                    0 <= i < front.len() && self.walk(#[trigger] front[i], depth).contains(x);
                assert(front[i] == ids[i]);
            }
            if self.walk(ids.last(), depth).contains(x) {
                assert(ids[ids.len() - 1] == ids.last());
            }
            if exists|i: int| 0 <= i < ids.len() && self.walk(#[trigger] ids[i], depth).contains(x) {
                let i = choose|i: int|
                    0 <= i < ids.len() && self.walk(#[trigger] ids[i], depth).contains(x);
                if i < front.len() {
                    assert(front[i] == ids[i]);
                }
            }
        }
    }

    /// What the walk from an operand reaches, the walk from the node reaches.
    proof fn lemma_reach_through(&self, id: ExprId, depth: nat, i: int, x: ExprId)
        requires
            depth > 0,
            0 <= i < self.node(id).operands().len(),
            self.walk(self.node(id).operands()[i], (depth - 1) as nat).contains(x),
        ensures
            self.walk(id, depth).contains(x),
    {
        self.lemma_reach_each(self.node(id).operands(), (depth - 1) as nat, x);
        self.lemma_reach_unfolds(id, depth, x);
    }

    /// The operand of `id` through which a walk from `id` reaches `x`, where
    /// `x` is not `id` itself.
    proof fn lemma_reach_operand(&self, id: ExprId, depth: nat, x: ExprId) -> (i: int)
        requires
            self.walk(id, depth).contains(x),
            x != id,
        ensures
            depth > 0,
            0 <= i < self.node(id).operands().len(),
            self.walk(self.node(id).operands()[i], (depth - 1) as nat).contains(x),
    {
        if depth == 0 {
            assert(self.walk(id, depth).len() == 0);
        }
        self.lemma_reach_unfolds(id, depth, x);
        let operands = self.node(id).operands();
        self.lemma_reach_each(operands, (depth - 1) as nat, x);
        choose|i: int|
            0 <= i < operands.len() && self.walk(#[trigger] operands[i], (depth - 1) as nat).contains(
                x,
            )
    }

    /// A node that a walk reaches nests within the depth within which the
    /// start of the walk nests.
    proof fn lemma_reached_nests(&self, id: ExprId, depth: nat, x: ExprId)
        requires
            self.nests_within(id, depth),
            self.walk(id, depth).contains(x),
        ensures
            self.nests_within(x, depth),
        decreases depth,
    {
        if x != id {
            let i = self.lemma_reach_operand(id, depth, x);
            let inner = self.node(id).operands()[i];
            self.lemma_reached_nests(inner, (depth - 1) as nat, x);
            self.lemma_walk_deeper(x, (depth - 1) as nat, depth);
        }
    }

    /// A walk that reaches a node reaches each operand of the node.
    proof fn lemma_walk_reaches_operands(&self, id: ExprId, depth: nat, x: ExprId, i: int)
        requires
            self.nests_within(id, depth),
            self.walk(id, depth).contains(x),
            0 <= i < self.node(x).operands().len(),
        ensures
            self.walk(id, depth).contains(self.node(x).operands()[i]),
        decreases depth,
    {
        let below = (depth - 1) as nat;
        if x == id {
            let inner = self.node(id).operands()[i];
            assert(self.nests_within(inner, below));
            self.lemma_reach_unfolds(inner, below, inner);
            self.lemma_reach_through(id, depth, i, inner);
        } else {
            let k = self.lemma_reach_operand(id, depth, x);
            let inner = self.node(id).operands()[k];
            self.lemma_walk_reaches_operands(inner, below, x, i);
            self.lemma_reach_through(id, depth, k, self.node(x).operands()[i]);
        }
    }

    /// Where the nesting below `root` ends, the walk from `root` leaves out
    /// nothing that is nested in `root`: it starts with `root`, and with a
    /// node it reaches each operand of the node.
    pub proof fn lemma_reaches_all(&self, root: ExprId, x: ExprId, i: int)
        requires
            self.acyclic_from(root),
            self.pre_order(root).contains(x),
            0 <= i < self.node(x).operands().len(),
        ensures
            self.pre_order(root).first() == root,
            self.pre_order(root).contains(self.node(x).operands()[i]),
    {
        let depth = choose|depth: nat| self.nests_within(root, depth);
        self.lemma_walk_reaches_operands(root, depth, x, i);
    }

    /// Where the nesting ends, the walks from the operands of a node do not
    /// reach the node.
    proof fn lemma_not_in_itself(&self, id: ExprId, depth: nat)
        requires
            self.nests_within(id, depth),
        ensures
            !self.walk_each(self.node(id).operands(), (depth - 1) as nat).contains(id),
        decreases depth,
    {
        let operands = self.node(id).operands();
        let below = (depth - 1) as nat;
        if self.walk_each(operands, below).contains(id) {
            self.lemma_reach_each(operands, below, id);
            let i = choose|i: int|
                0 <= i < operands.len() && self.walk(#[trigger] operands[i], below).contains(id);
            let inner = operands[i];
            self.lemma_reached_nests(inner, below, id);
            assert(self.nests_within(inner, (below - 1) as nat));
            self.lemma_walk_deeper(inner, (below - 1) as nat, below);
            self.lemma_reach_each(operands, (below - 1) as nat, id);
            self.lemma_not_in_itself(id, below);
        }
    }

    /// A node that a walk reaches after its start is an operand of a node
    /// that the walk reaches.
    proof fn lemma_parent(&self, id: ExprId, depth: nat, x: ExprId) -> (at: (ExprId, int))
        requires
            self.walk(id, depth).contains(x),
            x != id,
        ensures
            self.walk(id, depth).contains(at.0),
            0 <= at.1 < self.node(at.0).operands().len(),
            self.node(at.0).operands()[at.1] == x,
        decreases depth,
    {
        let i = self.lemma_reach_operand(id, depth, x);
        let inner = self.node(id).operands()[i];
        if x == inner {
            self.lemma_reach_unfolds(id, depth, id);
            (id, i)
        } else {
            let at = self.lemma_parent(inner, (depth - 1) as nat, x);
            self.lemma_reach_through(id, depth, i, at.0);
            at
        }
    }

    /// Where no node is nested in two places, two walks that reach a common
    /// node are one within the other.
    proof fn lemma_related(
        &self,
        within: Seq<ExprId>,
        a: ExprId,
        depth_a: nat,
        b: ExprId,
        depth_b: nat,
        x: ExprId,
    )
        requires
            self.nested_once(within),
            forall|y: ExprId| self.walk(a, depth_a).contains(y) ==> within.contains(y),
            forall|y: ExprId| self.walk(b, depth_b).contains(y) ==> within.contains(y),
            self.walk(a, depth_a).contains(x),
            self.walk(b, depth_b).contains(x),
        ensures
            self.walk(b, depth_b).contains(a) || self.walk(a, depth_a).contains(b),
        decreases depth_a,
    {
        if x != a && x != b {
            let i = self.lemma_reach_operand(a, depth_a, x);
            let j = self.lemma_reach_operand(b, depth_b, x);
            let inner_a = self.node(a).operands()[i];
            let inner_b = self.node(b).operands()[j];
            let below_a = (depth_a - 1) as nat;
            let below_b = (depth_b - 1) as nat;
            assert forall|y: ExprId| self.walk(inner_a, below_a).contains(y) implies within.contains(
                y,
            ) by {
                self.lemma_reach_through(a, depth_a, i, y);
            }
            assert forall|y: ExprId| self.walk(inner_b, below_b).contains(y) implies within.contains(
                y,
            ) by {
                self.lemma_reach_through(b, depth_b, j, y);
            }
            self.lemma_reach_unfolds(a, depth_a, a);
            self.lemma_reach_unfolds(b, depth_b, b);
            self.lemma_related(within, inner_a, below_a, inner_b, below_b, x);
            if inner_a == inner_b {
                assert(self.node(a).operands()[i] == self.node(b).operands()[j]);
                assert(a == b);
            } else if self.walk(inner_b, below_b).contains(inner_a) {
                let at = self.lemma_parent(inner_b, below_b, inner_a);
                assert(self.node(at.0).operands()[at.1] == self.node(a).operands()[i]);
                assert(at.0 == a);
                self.lemma_reach_through(b, depth_b, j, a);
            } else {
                let at = self.lemma_parent(inner_a, below_a, inner_b);
                assert(self.node(at.0).operands()[at.1] == self.node(b).operands()[j]);
                assert(at.0 == b);
                self.lemma_reach_through(a, depth_a, i, b);
            }
        }
    }

    /// Where no node is nested in two places and the nesting ends, the walks
    /// from two operands of a node reach no common node.
    proof fn lemma_operands_apart(
        &self,
        within: Seq<ExprId>,
        id: ExprId,
        depth: nat,
        i: int,
        j: int,
        x: ExprId,
    )
        requires
            self.nested_once(within),
            self.nests_within(id, depth),
            forall|y: ExprId| self.walk(id, depth).contains(y) ==> within.contains(y),
            0 <= i < self.node(id).operands().len(),
            0 <= j < self.node(id).operands().len(),
            i != j,
            self.walk(self.node(id).operands()[i], (depth - 1) as nat).contains(x),
        ensures
            !self.walk(self.node(id).operands()[j], (depth - 1) as nat).contains(x),
    {
        let operands = self.node(id).operands();
        let below = (depth - 1) as nat;
        let a = operands[i];
        let b = operands[j];
        if self.walk(b, below).contains(x) {
            self.lemma_reach_unfolds(id, depth, id);
            assert(self.node(id).operands()[i] != self.node(id).operands()[j]);
            assert forall|y: ExprId| self.walk(a, below).contains(y) implies within.contains(y) by {
                self.lemma_reach_through(id, depth, i, y);
            }
            assert forall|y: ExprId| self.walk(b, below).contains(y) implies within.contains(y) by {
                self.lemma_reach_through(id, depth, j, y);
            }
            self.lemma_related(within, a, below, b, below, x);
            self.lemma_not_in_itself(id, depth);
            self.lemma_reach_each(operands, below, id);
            if self.walk(b, below).contains(a) {
                let at = self.lemma_parent(b, below, a);
                assert(self.node(at.0).operands()[at.1] == self.node(id).operands()[i]);
                assert(at.0 == id);
            } else {
                let at = self.lemma_parent(a, below, b);
                assert(self.node(at.0).operands()[at.1] == self.node(id).operands()[j]);
                assert(at.0 == id);
            }
        }
    }

    /// Where no node is nested in two places and the nesting ends, a walk
    /// reaches no node twice.
    proof fn lemma_walk_once(&self, within: Seq<ExprId>, id: ExprId, depth: nat)
        requires
            self.nested_once(within),
            self.nests_within(id, depth),
            forall|y: ExprId| self.walk(id, depth).contains(y) ==> within.contains(y),
        ensures
            self.walk(id, depth).no_duplicates(),
        decreases depth, 1nat, 0nat,
    {
        let operands = self.node(id).operands();
        let below = self.walk_each(operands, (depth - 1) as nat);
        self.lemma_walk_operands_once(within, id, depth, operands.len());
        assert(operands.take(operands.len() as int) =~= operands);
        self.lemma_not_in_itself(id, depth);
        assert forall|i: int, j: int| 0 <= i < seq![id].len() && 0 <= j < below.len() implies seq![
            id,
        ][i] != below[j] by {
            if below[j] == id {
                assert(below.contains(id));
            }
        }
        lemma_no_dup_in_concat(seq![id], below);
    }

    /// Where no node is nested in two places and the nesting ends, the walks
    /// from the first `count` operands of a node reach no node twice.
    proof fn lemma_walk_operands_once(
        &self,
        within: Seq<ExprId>,
        id: ExprId,
        depth: nat,
        count: nat,
    )
        requires
            self.nested_once(within),
            self.nests_within(id, depth),
            forall|y: ExprId| self.walk(id, depth).contains(y) ==> within.contains(y),
            count <= self.node(id).operands().len(),
        ensures
            self.walk_each(
                self.node(id).operands().take(count as int),
                (depth - 1) as nat,
            ).no_duplicates(),
        decreases depth, 0nat, count,
    {
        let operands = self.node(id).operands();
        let below = (depth - 1) as nat;
        if count > 0 {
            let taken = operands.take(count as int);
            let front = operands.take(count - 1);
            let last = operands[count - 1];
            assert(taken.drop_last() =~= front);
            assert(taken.last() == last);
            self.lemma_walk_operands_once(within, id, depth, (count - 1) as nat);
            assert forall|y: ExprId| self.walk(last, below).contains(y) implies within.contains(
                y,
            ) by {
                self.lemma_reach_through(id, depth, count - 1, y);
            }
            self.lemma_walk_once(within, last, below);
            let first = self.walk_each(front, below);
            let second = self.walk(last, below);
            assert forall|i: int, j: int| 0 <= i < first.len() && 0 <= j < second.len() implies first[i]
                != second[j] by {
                if first[i] == second[j] {
                    let x = first[i];
                    assert(first.contains(x));
                    assert(second.contains(x));
                    self.lemma_reach_each(front, below, x);
                    let k = choose|k: int|
                        0 <= k < front.len() && self.walk(#[trigger] front[k], below).contains(x);
                    assert(front[k] == operands[k]);
                    self.lemma_operands_apart(within, id, depth, k, count - 1, x);
                }
            }
            lemma_no_dup_in_concat(first, second);
        }
    }

    /// Where the nesting below `root` ends and no node below `root` is
    /// nested in two places, the walk from `root` reaches no node twice. A
    /// block is then reached once, where it is nested, however many branches
    /// name it as their target: a walk does not follow a branch.
    pub proof fn lemma_reached_once(&self, root: ExprId)
        requires
            self.acyclic_from(root),
            self.nested_once(self.pre_order(root)),
        ensures
            self.pre_order(root).no_duplicates(),
    {
        let depth = choose|depth: nat| self.nests_within(root, depth);
        self.lemma_walk_once(self.pre_order(root), root, depth);
    }
}

} // verus!
