//! The order in which a walk of the graph reaches the nodes.
//!
//! A walk starts at a node, reaches it, and then walks each of its operands
//! in turn. It does not follow a branch to its target: a block is reached
//! where it is nested, once, however many branches name it. So a walk ends
//! whenever the nesting does, although control may go round a loop.
use crate::function::LocalFunction;
use crate::ir::ExprId;
use vstd::prelude::*;
use vstd::set_lib::{lemma_int_range, lemma_len_subset, set_int_range};

verus! {

impl LocalFunction {
    /// Whether the nodes nested in `id` lie at most `depth` levels deep,
    /// where the node `id` itself is the first level.
    pub open spec fn nests_within(&self, id: ExprId, depth: nat) -> bool
        decreases depth,
    {
        depth > 0 && forall|i: int|
            0 <= i < self.node(id).operands().len() ==> self.nests_within(
                #[trigger] self.node(id).operands()[i],
                (depth - 1) as nat,
            )
    }

    /// Whether the nesting below `id` ends: no node is nested, at any depth,
    /// in itself.
    pub open spec fn acyclic_from(&self, id: ExprId) -> bool {
        exists|depth: nat| self.nests_within(id, depth)
    }

    /// The nodes that a walk from `id` reaches, in the order in which it
    /// reaches them, if it goes no deeper than `depth` levels: `id`, then
    /// what the walk from its first operand reaches, then from its second,
    /// and so on.
    pub open spec fn walk(&self, id: ExprId, depth: nat) -> Seq<ExprId>
        decreases depth, 0nat, 0nat,
    {
        if depth == 0 {
            Seq::empty()
        } else {
            seq![id] + self.walk_each(self.node(id).operands(), (depth - 1) as nat)
        }
    }

    /// What the walks from each of `ids` reach, one walk after the other.
    pub open spec fn walk_each(&self, ids: Seq<ExprId>, depth: nat) -> Seq<ExprId>
        decreases depth, 1nat, ids.len(),
    {
        if ids.len() == 0 {
            Seq::empty()
        } else {
            self.walk_each(ids.drop_last(), depth) + self.walk(ids.last(), depth)
        }
    }

    /// The nodes that a walk from `root` reaches, in the order in which it
    /// reaches them. It means something where the nesting below `root` ends.
    pub open spec fn pre_order(&self, root: ExprId) -> Seq<ExprId>
        recommends
            self.acyclic_from(root),
    {
        self.walk(root, choose|depth: nat| self.nests_within(root, depth))
    }

    /// A walk that may go deeper than the nesting reaches the same nodes.
    pub proof fn lemma_walk_deeper(&self, id: ExprId, depth: nat, deeper: nat)
        requires
            self.nests_within(id, depth),
            depth <= deeper,
        ensures
            self.nests_within(id, deeper),
            self.walk(id, deeper) == self.walk(id, depth),
        decreases depth, 0nat, 0nat,
    {
        let operands = self.node(id).operands();
        self.lemma_walk_each_deeper(operands, (depth - 1) as nat, (deeper - 1) as nat);
    }

    /// Walks that may go deeper than the nesting reach the same nodes.
    pub proof fn lemma_walk_each_deeper(&self, ids: Seq<ExprId>, depth: nat, deeper: nat)
        requires
            forall|i: int| 0 <= i < ids.len() ==> self.nests_within(#[trigger] ids[i], depth),
            depth <= deeper,
        ensures
            forall|i: int| 0 <= i < ids.len() ==> self.nests_within(#[trigger] ids[i], deeper),
            self.walk_each(ids, deeper) == self.walk_each(ids, depth),
        decreases depth, 1nat, ids.len(),
    {
        if ids.len() > 0 {
            let front = ids.drop_last();
            assert forall|i: int| 0 <= i < front.len() implies self.nests_within(
                #[trigger] front[i],
                depth,
            ) by {
                assert(front[i] == ids[i]);
            }
            self.lemma_walk_each_deeper(front, depth, deeper);
            self.lemma_walk_deeper(ids.last(), depth, deeper);
            assert forall|i: int| 0 <= i < ids.len() implies self.nests_within(
                #[trigger] ids[i],
                deeper,
            ) by {
                if i < front.len() {
                    assert(front[i] == ids[i]);
                }
            }
        }
    }

    /// Where the nesting below `root` ends, the walk from `root` is the walk
    /// to any depth within which `root` nests.
    pub proof fn lemma_pre_order_is_walk(&self, root: ExprId, depth: nat)
        requires
            self.nests_within(root, depth),
        ensures
            self.pre_order(root) == self.walk(root, depth),
    {
        let chosen = choose|d: nat| self.nests_within(root, d);
        if chosen <= depth {
            self.lemma_walk_deeper(root, chosen, depth);
        } else {
            self.lemma_walk_deeper(root, depth, chosen);
        }
    }

    /// The walk from a node reaches the node and then walks its operands.
    pub proof fn lemma_pre_order_unfolds(&self, root: ExprId, depth: nat)
        requires
            self.nests_within(root, depth),
        ensures
            self.pre_order(root) == seq![root] + self.walk_each(
                self.node(root).operands(),
                depth,
            ),
    {
        self.lemma_pre_order_is_walk(root, depth);
        let operands = self.node(root).operands();
        self.lemma_walk_each_deeper(operands, (depth - 1) as nat, depth);
    }

    /// Every node that a walk of a well-formed function reaches from one of
    /// its nodes is a node of the function.
    pub proof fn lemma_walk_resolves(&self, id: ExprId, depth: nat)
        requires
            self.well_formed(),
            self.contains(id),
        ensures
            forall|i: int|
                0 <= i < self.walk(id, depth).len() ==> self.contains(
                    #[trigger] self.walk(id, depth)[i],
                ),
        decreases depth, 0nat, 0nat,
    {
        if depth > 0 {
            let operands = self.node(id).operands();
            assert(self.accepts(self.nodes()[id.index as int]));
            self.lemma_walk_each_resolves(operands, (depth - 1) as nat);
            let below = self.walk_each(operands, (depth - 1) as nat);
            assert forall|i: int| 0 <= i < self.walk(id, depth).len() implies self.contains(
                #[trigger] self.walk(id, depth)[i],
            ) by {
                if i > 0 {
                    assert(self.walk(id, depth)[i] == below[i - 1]);
                }
            }
        }
    }

    /// Every node that walks of a well-formed function reach from nodes of
    /// the function is a node of the function.
    pub proof fn lemma_walk_each_resolves(&self, ids: Seq<ExprId>, depth: nat)
        requires
            self.well_formed(),
            forall|i: int| 0 <= i < ids.len() ==> self.contains(#[trigger] ids[i]),
        ensures
            forall|i: int|
                0 <= i < self.walk_each(ids, depth).len() ==> self.contains(
                    #[trigger] self.walk_each(ids, depth)[i],
                ),
        decreases depth, 1nat, ids.len(),
    {
        if ids.len() > 0 {
            let front = ids.drop_last();
            assert forall|i: int| 0 <= i < front.len() implies self.contains(
                #[trigger] front[i],
            ) by {
                assert(front[i] == ids[i]);
            }
            self.lemma_walk_each_resolves(front, depth);
            self.lemma_walk_resolves(ids.last(), depth);
            let first = self.walk_each(front, depth);
            let second = self.walk(ids.last(), depth);
            assert forall|i: int| 0 <= i < self.walk_each(ids, depth).len() implies self.contains(
                #[trigger] self.walk_each(ids, depth)[i],
            ) by {
                if i < first.len() {
                    assert(self.walk_each(ids, depth)[i] == first[i]);
                } else {
                    assert(self.walk_each(ids, depth)[i] == second[i - first.len()]);
                }
            }
        }
    }

    /// The id of this function at position `index`.
    pub open spec fn id_at(&self, index: int) -> ExprId {
        ExprId { arena: self.arena_id(), index: index as usize }
    }

    /// A node that nests within `depth` levels and no fewer heads a chain of
    /// `depth` different nodes, each nested in the one before.
    proof fn lemma_chain(&self, id: ExprId, depth: nat) -> (chain: Set<int>)
        requires
            self.well_formed(),
            self.contains(id),
            self.nests_within(id, depth),
            depth == 1 || !self.nests_within(id, (depth - 1) as nat),
        ensures
            chain.finite(),
            chain.len() == depth,
            forall|x: int| #[trigger] chain.contains(x) ==> 0 <= x < self.nodes().len(),
            forall|x: int|
                chain.contains(x) ==> self.nests_within(#[trigger] self.id_at(x), depth),
        decreases depth,
    {
        assert(self.id_at(id.index as int) == id);
        if depth == 1 {
            let chain = Set::<int>::empty().insert(id.index as int);
            chain
        } else {
            let below = (depth - 1) as nat;
            let operands = self.node(id).operands();
            let i = choose|i: int|
                0 <= i < operands.len() && !self.nests_within(
                    #[trigger] operands[i],
                    (below - 1) as nat,
                );
            let inner = operands[i];
            assert(self.accepts(self.nodes()[id.index as int]));
            assert(self.nests_within(inner, below));
            let rest = self.lemma_chain(inner, below);
            assert(!rest.contains(id.index as int));
            let chain = rest.insert(id.index as int);
            assert forall|x: int| chain.contains(x) implies self.nests_within(
                #[trigger] self.id_at(x),
                depth,
            ) by {
                if x != id.index {
                    self.lemma_walk_deeper(self.id_at(x), below, depth);
                }
            }
            chain
        }
    }

    /// In a well-formed function, nesting that ends at all ends within as
    /// many levels as the function has nodes.
    pub proof fn lemma_nesting_bounded(&self, id: ExprId, depth: nat)
        requires
            self.well_formed(),
            self.contains(id),
            self.nests_within(id, depth),
        ensures
            self.nests_within(id, self.nodes().len()),
        decreases depth,
    {
        if depth > 1 && self.nests_within(id, (depth - 1) as nat) {
            self.lemma_nesting_bounded(id, (depth - 1) as nat);
        } else {
            let chain = self.lemma_chain(id, depth);
            let all = set_int_range(0, self.nodes().len() as int);
            lemma_int_range(0, self.nodes().len() as int);
            assert(chain.subset_of(all));
            lemma_len_subset(chain, all);
            self.lemma_walk_deeper(id, depth, self.nodes().len());
        }
    }

    /// Walks from `id`, going no deeper than `depth` levels, and appends the
    /// nodes reached to `out`. Gives up, and says so, where the nesting goes
    /// deeper.
    fn walk_into(&self, id: ExprId, depth: usize, out: &mut Vec<ExprId>) -> (done: bool)
        requires
            self.well_formed(),
            self.contains(id),
        ensures
            done == self.nests_within(id, depth as nat),
            done ==> final(out)@ == old(out)@ + self.walk(id, depth as nat),
        decreases depth,
    {
        if depth == 0 {
            return false;
        }
        out.push(id);
        let node = self.get(id);
        let operands = node.operand_ids();
        let ghost below = (depth - 1) as nat;
        proof {
            assert(self.accepts(self.nodes()[id.index as int]));
            assert(operands@.take(0) =~= Seq::<ExprId>::empty());
        }
        let mut i: usize = 0;
        while i < operands.len()
            invariant
                i <= operands.len(),
                operands@ == self.node(id).operands(),
                self.well_formed(),
                self.accepts(self.node(id)),
                depth > 0,
                below == depth - 1,
                forall|k: int| 0 <= k < i ==> self.nests_within(#[trigger] operands@[k], below),
                out@ == old(out)@.push(id) + self.walk_each(operands@.take(i as int), below),
            decreases operands.len() - i,
        {
            assert(self.contains(self.node(id).operands()[i as int]));
            if !self.walk_into(operands[i], depth - 1, out) {
                return false;
            }
            proof {
                let taken = operands@.take(i + 1);
                assert(taken.drop_last() =~= operands@.take(i as int));
                assert(taken.last() == operands@[i as int]);
            }
            i = i + 1;
        }
        proof {
            assert(operands@.take(i as int) =~= operands@);
            assert(old(out)@.push(id) + self.walk_each(operands@, below) =~= old(out)@ + self.walk(
                id,
                depth as nat,
            ));
        }
        true
    }

    /// The nodes that a walk from `root` reaches, in the order in which it
    /// reaches them, or nothing where the walk would not end because a node
    /// is nested in itself.
    pub fn visit_order(&self, root: ExprId) -> (order: Option<Vec<ExprId>>)
        requires
            self.well_formed(),
            self.contains(root),
        ensures
            order is Some <==> self.acyclic_from(root),
            order matches Some(ids) ==> ids@ == self.pre_order(root),
            order matches Some(ids) ==> forall|i: int|
                0 <= i < ids@.len() ==> self.contains(#[trigger] ids@[i]),
    {
        let mut out: Vec<ExprId> = Vec::new();
        let depth = self.len();
        let done = self.walk_into(root, depth, &mut out);
        proof {
            if self.acyclic_from(root) {
                let some = choose|d: nat| self.nests_within(root, d);
                self.lemma_nesting_bounded(root, some);
            }
            if done {
                self.lemma_pre_order_is_walk(root, depth as nat);
                self.lemma_walk_resolves(root, depth as nat);
                assert(out@ =~= self.walk(root, depth as nat));
            }
        }
        if done {
            Some(out)
        } else {
            None
        }
    }
}

} // verus!
