//! The registry of the locals of a function.
use crate::arena::{
    arena_locals, locals_alloc, locals_get, locals_get_mut, locals_ident, locals_new,
    locals_next_id,
};
use crate::ir::{Expr, Local, LocalId};
use crate::ty::ValType;
use id_arena::Arena;
use vstd::prelude::*;

verus! {

/// The parameters and local variables of a function, each known by the id
/// that the registry gave it when it was created.
///
/// Locals are only ever added, and a local never changes its id or its type.
#[derive(Debug)]
pub struct LocalRegistry {
    arena: Arena<Local>,
}

impl LocalRegistry {
    /// The locals of this registry, in the order in which they were created.
    pub closed spec fn locals(&self) -> Seq<Local> {
        arena_locals(self.arena)
    }

    /// The number that the ids of this registry carry.
    pub closed spec fn arena_id(&self) -> u32 {
        locals_ident(self.arena)
    }

    /// Whether `id` is an id of this registry: one that it has issued.
    pub open spec fn spec_contains(&self, id: LocalId) -> bool {
        id.arena == self.arena_id() && id.index < self.locals().len()
    }

    /// The local that `id` refers to.
    pub open spec fn local(&self, id: LocalId) -> Local
        recommends
            self.contains(id),
    {
        self.locals()[id.index as int]
    }

    /// Whether each local knows the id by which the registry knows it.
    pub open spec fn well_formed(&self) -> bool {
        forall|i: int|
            0 <= i < self.locals().len() ==> (#[trigger] self.locals()[i]).id() == (LocalId {
                arena: self.arena_id(),
                index: i as usize,
            })
    }

    /// A registry without locals.
    pub fn new() -> (registry: LocalRegistry)
        ensures
            registry.locals() == Seq::<Local>::empty(),
            registry.well_formed(),
    {
        LocalRegistry { arena: locals_new() }
    }

    /// Whether `id` is an id of this registry.
    #[verifier::when_used_as_spec(spec_contains)]
    pub fn contains(&self, id: LocalId) -> (found: bool)
        ensures
            found == self.spec_contains(id),
    {
        locals_get(&self.arena, id).is_some()
    }

    /// Whether the local that `node` names, if it names one, is a local of
    /// this registry, so that the node can go into a function of the module.
    pub fn knows(&self, node: &Expr) -> (ok: bool)
        ensures
            ok == (node.local() matches Some(id) ==> self.contains(id)),
    {
        match node.local_id() {
            Some(id) => self.contains(id),
            None => true,
        }
    }

    /// Creates a local of type `ty`, without a name, and returns its id, an
    /// id that was never issued before.
    pub fn create(&mut self, ty: ValType) -> (id: LocalId)
        requires
            old(self).locals().len() < usize::MAX,
        ensures
            final(self).locals().len() == old(self).locals().len() + 1,
            final(self).locals().drop_last() == old(self).locals(),
            final(self).arena_id() == old(self).arena_id(),
            id == (LocalId { arena: old(self).arena_id(), index: old(self).locals().len() as usize }),
            !old(self).contains(id),
            final(self).contains(id),
            final(self).local(id).id() == id,
            final(self).local(id).ty() == ty,
            final(self).local(id).spec_name() is None,
            old(self).well_formed() ==> final(self).well_formed(),
    {
        let next = locals_next_id(&self.arena);
        let local = Local::new(next, ty);
        let id = locals_alloc(&mut self.arena, local);
        proof {
            assert(self.locals().drop_last() =~= old(self).locals());
        }
        id
    }

    /// The local that `id` refers to.
    pub fn lookup(&self, id: LocalId) -> (local: &Local)
        requires
            self.contains(id),
        ensures
            *local == self.local(id),
            self.well_formed() ==> local.id() == id,
    {
        locals_get(&self.arena, id).unwrap()
    }

    /// Gives the local `id` the name `name`, or takes its name away. Nothing
    /// else about the local changes, and no other local changes.
    pub fn set_name(&mut self, id: LocalId, name: Option<String>)
        requires
            old(self).contains(id),
        ensures
            final(self).locals().len() == old(self).locals().len(),
            final(self).arena_id() == old(self).arena_id(),
            final(self).local(id).spec_name() == name,
            final(self).local(id).id() == old(self).local(id).id(),
            final(self).local(id).ty() == old(self).local(id).ty(),
            forall|i: int|
                0 <= i < old(self).locals().len() && i != id.index ==> final(self).locals()[i]
                    == old(self).locals()[i],
            old(self).well_formed() ==> final(self).well_formed(),
    {
        let local = locals_get_mut(&mut self.arena, id);
        local.rename(name);
    }
}

} // verus!
