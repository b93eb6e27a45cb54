//! Showing the nodes of a function to a visitor.
//!
//! A walk shows the visitor each node that it reaches, in the order in which
//! it reaches them. What the visitor makes of a node is its own affair; the
//! walk promises which nodes it shows and in what order.
use crate::function::LocalFunction;
use crate::ir::{BlockId, Expr, ExprId};
use vstd::prelude::*;

verus! {

/// Something that is shown the nodes of a function, one at a time.
pub trait Visitor<'expr>: Sized {
    /// The function whose nodes the visitor is shown. A visitor that says
    /// nothing of it leaves it open.
    open spec fn function(&self) -> LocalFunction {
        arbitrary()
    }

    /// Whether a visitor that was `before` may be `after` once it has been
    /// shown the node `id`. A visitor that says nothing of it may become
    /// anything.
    open spec fn reacts(before: Self, id: ExprId, after: Self) -> bool {
        true
    }

    /// The function whose nodes the visitor is shown.
    fn local_function(&self) -> (func: &'expr LocalFunction)
        ensures
            *func == self.function(),
    ;

    /// Shows the visitor the node `expr`, which is the node `id` of the
    /// visitor's function.
    fn visit_expr(&mut self, id: ExprId, expr: &'expr Expr)
        requires
            old(self).function().contains(id),
            *expr == old(self).function().node(id),
        ensures
            final(self).function() == old(self).function(),
            Self::reacts(*old(self), id, *final(self)),
    ;
}

/// Whether `states` are states that a visitor may pass through while it is
/// shown the nodes `ids`, one after the other: one state before each node and
/// one after the last.
pub open spec fn passes<'expr, V: Visitor<'expr>>(states: Seq<V>, ids: Seq<ExprId>) -> bool {
    &&& states.len() == ids.len() + 1
    &&& forall|i: int|
        0 <= i < ids.len() ==> V::reacts(states[i], #[trigger] ids[i], states[i + 1])
}

/// Whether a visitor that was `before` may be `after` once it has been shown
/// the nodes `ids`, one after the other, and nothing else.
pub open spec fn shown<'expr, V: Visitor<'expr>>(before: V, ids: Seq<ExprId>, after: V) -> bool {
    exists|states: Seq<V>|
        #[trigger] passes(states, ids) && states.first() == before && states.last() == after
}

/// A visitor that has been shown nothing is as it was.
pub proof fn lemma_shown_nothing<'expr, V: Visitor<'expr>>(visitor: V)
    ensures
        shown(visitor, Seq::<ExprId>::empty(), visitor),
{
    let states = seq![visitor];
    assert(passes(states, Seq::<ExprId>::empty()));
}

/// A visitor that has been shown some nodes and is then shown one more has
/// been shown the longer list.
pub proof fn lemma_shown_one_more<'expr, V: Visitor<'expr>>(
    before: V,
    ids: Seq<ExprId>,
    between: V,
    id: ExprId,
    after: V,
)
    requires
        shown(before, ids, between),
        V::reacts(between, id, after),
    ensures
        shown(before, ids.push(id), after),
{
    let states = choose|states: Seq<V>|
        #[trigger] passes(states, ids) && states.first() == before && states.last() == between;
    let longer = states.push(after);
    assert forall|i: int| 0 <= i < ids.push(id).len() implies V::reacts(
        longer[i],
        #[trigger] ids.push(id)[i],
        longer[i + 1],
    ) by {
        if i < ids.len() {
            assert(V::reacts(states[i], ids[i], states[i + 1]));
        }
    }
    assert(passes(longer, ids.push(id)));
}

/// A visitor that has been shown a list of nodes was shown all but the last
/// of them first, and then the last.
pub proof fn lemma_shown_last<'expr, V: Visitor<'expr>>(
    before: V,
    ids: Seq<ExprId>,
    after: V,
) -> (between: V)
    requires
        ids.len() > 0,
        shown(before, ids, after),
    ensures
        shown(before, ids.drop_last(), between),
        V::reacts(between, ids.last(), after),
{
    let states = choose|states: Seq<V>|
        #[trigger] passes(states, ids) && states.first() == before && states.last() == after;
    let shorter = states.drop_last();
    assert forall|i: int| 0 <= i < ids.drop_last().len() implies V::reacts(
        shorter[i],
        #[trigger] ids.drop_last()[i],
        shorter[i + 1],
    ) by {
        assert(V::reacts(states[i], ids[i], states[i + 1]));
    }
    assert(passes(shorter, ids.drop_last()));
    assert(V::reacts(states[ids.len() - 1], ids[ids.len() - 1], states[ids.len() - 1 + 1]));
    shorter.last()
}

/// Anything that can be visited by a `Visitor`.
pub trait Visit<'expr> {
    /// Whether a walk from this thing can be made in `func`, and ends. Of a
    /// thing that says nothing of it no walk is known to end.
    open spec fn walkable(&self, func: LocalFunction) -> bool {
        false
    }

    /// The nodes of `func` that a walk from this thing reaches, in the order
    /// in which it reaches them.
    open spec fn reached(&self, func: LocalFunction) -> Seq<ExprId> {
        Seq::empty()
    }

    /// Visit this thing with the given visitor: the visitor is shown each
    /// node that the walk reaches, in order, and nothing else.
    fn visit<V>(&self, visitor: &mut V) where V: Visitor<'expr>
        requires
            self.walkable(old(visitor).function()),
        ensures
            final(visitor).function() == old(visitor).function(),
            shown(*old(visitor), self.reached(old(visitor).function()), *final(visitor)),
    ;
}

impl<'expr> Visit<'expr> for ExprId {
    /// A walk from a node can be made in a well-formed function that holds
    /// the node and in which the nesting below the node ends.
    open spec fn walkable(&self, func: LocalFunction) -> bool {
        func.well_formed() && func.contains(*self) && func.acyclic_from(*self)
    }

    open spec fn reached(&self, func: LocalFunction) -> Seq<ExprId> {
        func.pre_order(*self)
    }

    fn visit<V>(&self, visitor: &mut V) where V: Visitor<'expr> {
        let func = visitor.local_function();
        let order = func.visit_order(*self).unwrap();
        let mut i: usize = 0;
        proof {
            lemma_shown_nothing(*visitor);
            assert(order@.take(0) =~= Seq::<ExprId>::empty());
        }
        while i < order.len()
            invariant
                i <= order.len(),
                visitor.function() == old(visitor).function(),
                *func == visitor.function(),
                forall|k: int| 0 <= k < order@.len() ==> func.contains(#[trigger] order@[k]),
                shown(*old(visitor), order@.take(i as int), *visitor),
            decreases order.len() - i,
        {
            let id = order[i];
            let ghost between = *visitor;
            visitor.visit_expr(id, func.get(id));
            proof {
                lemma_shown_one_more(*old(visitor), order@.take(i as int), between, id, *visitor);
                assert(order@.take(i + 1) =~= order@.take(i as int).push(id));
            }
            i = i + 1;
        }
        proof {
            assert(order@.take(i as int) =~= order@);
        }
    }
}

impl<'expr> Visit<'expr> for BlockId {
    open spec fn walkable(&self, func: LocalFunction) -> bool {
        self.0.walkable(func)
    }

    open spec fn reached(&self, func: LocalFunction) -> Seq<ExprId> {
        self.0.reached(func)
    }

    fn visit<V>(&self, visitor: &mut V) where V: Visitor<'expr> {
        self.0.visit(visitor)
    }
}

} // verus!
