//! The arena that stores the nodes of a function.
//!
//! The storage is `id_arena`'s. Nothing here is proved: each item states what
//! the arena does, as its source shows it, and the graph is verified against
//! these statements.
use crate::ir::{Expr, ExprId, Local, LocalId};
use id_arena::{Arena, ArenaBehavior, DefaultArenaBehavior};
use vstd::prelude::*;

verus! {

/// `id_arena::Arena`, a growable store of items that hands out an id for each.
#[verifier::external_type_specification]
#[verifier::external_body]
#[verifier::reject_recursive_types(T)]
#[verifier::reject_recursive_types(A)]
pub struct ExArena<T, A>(Arena<T, A>);

/// `id_arena::DefaultArenaBehavior`, the marker of arenas whose ids are
/// `id_arena::Id`s.
#[verifier::external_type_specification]
#[verifier::external_body]
#[verifier::reject_recursive_types(T)]
pub struct ExDefaultArenaBehavior<T>(DefaultArenaBehavior<T>);

/// The items of a node arena, in the order in which they were allocated.
pub uninterp spec fn arena_exprs(arena: Arena<Expr>) -> Seq<Expr>;

/// The number that a node arena was given when it was made and that each of
/// its ids carries.
pub uninterp spec fn arena_ident(arena: Arena<Expr>) -> u32;

/// `Arena::new`: the new arena holds nothing.
#[verifier::external_body]
pub(crate) fn arena_new() -> (arena: Arena<Expr>)
    ensures
        arena_exprs(arena) == Seq::<Expr>::empty(),
{
    Arena::new()
}

/// `Arena::len`: the number of items allocated so far.
#[verifier::external_body]
pub(crate) fn arena_len(arena: &Arena<Expr>) -> (len: usize)
    ensures
        len == arena_exprs(*arena).len(),
{
    arena.len()
}

/// `Arena::alloc`: the item is appended, nothing else changes, and the id
/// returned carries the arena's number and the position of the new item,
/// which is the length before the call.
#[verifier::external_body]
pub(crate) fn arena_alloc(arena: &mut Arena<Expr>, node: Expr) -> (id: ExprId)
    requires
        arena_exprs(*old(arena)).len() < usize::MAX,
    ensures
        arena_exprs(*final(arena)) == arena_exprs(*old(arena)).push(node),
        arena_ident(*final(arena)) == arena_ident(*old(arena)),
        id.arena == arena_ident(*old(arena)),
        id.index == arena_exprs(*old(arena)).len(),
{
    let id = arena.alloc(node);
    ExprId { arena: DefaultArenaBehavior::arena_id(id), index: id.index() }
}

/// `Arena::get`: the item at the id's position if the id carries this arena's
/// number and the position is taken, and nothing otherwise.
#[verifier::external_body]
pub(crate) fn arena_get(arena: &Arena<Expr>, id: ExprId) -> (node: Option<&Expr>)
    ensures
        node is Some <==> (id.arena == arena_ident(*arena) && id.index < arena_exprs(
            *arena,
        ).len()),
        node is Some ==> *node->0 == arena_exprs(*arena)[id.index as int],
{
    arena.get(DefaultArenaBehavior::new_id(id.arena, id.index))
}

/// `IndexMut::index_mut` of `Arena`: a mutable reference to the item at the
/// id's position. What is written through it replaces that item, and no
/// other item, nor the arena's number, changes.
#[verifier::external_body]
pub(crate) fn arena_get_mut(arena: &mut Arena<Expr>, id: ExprId) -> (node: &mut Expr)
    requires
        id.arena == arena_ident(*old(arena)),
        id.index < arena_exprs(*old(arena)).len(),
    ensures
        *node == arena_exprs(*old(arena))[id.index as int],
        arena_exprs(*final(arena)) == arena_exprs(*old(arena)).update(
            id.index as int,
            *final(node),
        ),
        arena_ident(*final(arena)) == arena_ident(*old(arena)),
{
    &mut arena[DefaultArenaBehavior::new_id(id.arena, id.index)]
}

/// The items of an arena of locals, in the order in which they were
/// allocated.
pub uninterp spec fn arena_locals(arena: Arena<Local>) -> Seq<Local>;

/// The number that an arena of locals was given when it was made and that
/// each of its ids carries.
pub uninterp spec fn locals_ident(arena: Arena<Local>) -> u32;

/// `Arena::new`: the new arena holds nothing.
#[verifier::external_body]
pub(crate) fn locals_new() -> (arena: Arena<Local>)
    ensures
        arena_locals(arena) == Seq::<Local>::empty(),
{
    Arena::new()
}

/// `Arena::next_id`: the id that the next item allocated will get, which
/// carries the arena's number and the present length as its position.
#[verifier::external_body]
pub(crate) fn locals_next_id(arena: &Arena<Local>) -> (id: LocalId)
    ensures
        id.arena == locals_ident(*arena),
        id.index == arena_locals(*arena).len(),
{
    let id = arena.next_id();
    LocalId { arena: DefaultArenaBehavior::arena_id(id), index: id.index() }
}

/// `Arena::alloc`: the item is appended, nothing else changes, and the id
/// returned carries the arena's number and the position of the new item,
/// which is the length before the call.
#[verifier::external_body]
pub(crate) fn locals_alloc(arena: &mut Arena<Local>, local: Local) -> (id: LocalId)
    requires
        arena_locals(*old(arena)).len() < usize::MAX,
    ensures
        arena_locals(*final(arena)) == arena_locals(*old(arena)).push(local),
        locals_ident(*final(arena)) == locals_ident(*old(arena)),
        id.arena == locals_ident(*old(arena)),
        id.index == arena_locals(*old(arena)).len(),
{
    let id = arena.alloc(local);
    LocalId { arena: DefaultArenaBehavior::arena_id(id), index: id.index() }
}

/// `Arena::get`: the item at the id's position if the id carries this arena's
/// number and the position is taken, and nothing otherwise.
#[verifier::external_body]
pub(crate) fn locals_get(arena: &Arena<Local>, id: LocalId) -> (local: Option<&Local>)
    ensures
        local is Some <==> (id.arena == locals_ident(*arena) && id.index < arena_locals(
            *arena,
        ).len()),
        local is Some ==> *local->0 == arena_locals(*arena)[id.index as int],
{
    arena.get(DefaultArenaBehavior::new_id(id.arena, id.index))
}

/// `IndexMut::index_mut` of `Arena`: a mutable reference to the item at the
/// id's position. What is written through it replaces that item, and no
/// other item, nor the arena's number, changes.
#[verifier::external_body]
pub(crate) fn locals_get_mut(arena: &mut Arena<Local>, id: LocalId) -> (local: &mut Local)
    requires
        id.arena == locals_ident(*old(arena)),
        id.index < arena_locals(*old(arena)).len(),
    ensures
        *local == arena_locals(*old(arena))[id.index as int],
        arena_locals(*final(arena)) == arena_locals(*old(arena)).update(
            id.index as int,
            *final(local),
        ),
        locals_ident(*final(arena)) == locals_ident(*old(arena)),
{
    &mut arena[DefaultArenaBehavior::new_id(id.arena, id.index)]
}

} // verus!
