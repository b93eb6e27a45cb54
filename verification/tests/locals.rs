use walrus::ir::{Drop, Expr, ExprId, Local, LocalGet, LocalId, LocalSet, LocalTee};
use walrus::locals::LocalRegistry;
use walrus::ty::ValType;

#[test]
fn a_new_local_has_its_id_and_type_and_no_name() {
    let id = LocalId::new(3, 5);
    let local = Local::new(id, ValType::F32);
    assert_eq!(local.id(), id);
    assert_eq!(local.id().index(), 5);
    assert_eq!(local.ty(), ValType::F32);
    assert_eq!(local.name, None);
}

#[test]
fn the_name_of_a_local_can_be_set() {
    let mut local = Local::new(LocalId::new(0, 0), ValType::I32);
    local.name = Some(String::from("count"));
    assert_eq!(local.name.as_deref(), Some("count"));
    local.rename(None);
    assert_eq!(local.name, None);
    local.rename(Some(String::from("total")));
    assert_eq!(local.name.as_deref(), Some("total"));
    assert_eq!(local.ty(), ValType::I32);
    assert_eq!(local.id(), LocalId::new(0, 0));
}

#[test]
fn create_issues_a_fresh_id_each_time() {
    let mut locals = LocalRegistry::new();
    let first = locals.create(ValType::I32);
    let second = locals.create(ValType::F64);
    let third = locals.create(ValType::I32);
    assert_eq!(first.index(), 0);
    assert_eq!(second.index(), 1);
    assert_eq!(third.index(), 2);
    assert_eq!(first.arena, second.arena);
    assert_ne!(first, third);
    assert_eq!(locals.lookup(first).ty(), ValType::I32);
    assert_eq!(locals.lookup(second).ty(), ValType::F64);
    assert_eq!(locals.lookup(third).ty(), ValType::I32);
    assert_eq!(locals.lookup(first).id(), first);
    assert_eq!(locals.lookup(second).id(), second);
    assert_eq!(locals.lookup(third).id(), third);
    assert_eq!(locals.lookup(second).name, None);
}

#[test]
fn an_id_is_known_once_it_is_issued() {
    let mut locals = LocalRegistry::new();
    assert!(!locals.contains(LocalId::new(0, 0)));
    let first = locals.create(ValType::V128);
    assert!(locals.contains(first));
    assert!(!locals.contains(LocalId::new(first.arena, 1)));
    assert!(!locals.contains(LocalId::new(first.arena.wrapping_add(1), 0)));
}

#[test]
fn an_id_of_another_registry_is_foreign() {
    let mut one = LocalRegistry::new();
    let mut other = LocalRegistry::new();
    let a = one.create(ValType::I32);
    let b = other.create(ValType::I32);
    assert_ne!(a, b);
    assert!(one.contains(a));
    assert!(!one.contains(b));
    assert!(!other.contains(a));
}

#[test]
fn naming_a_local_changes_nothing_else() {
    let mut locals = LocalRegistry::new();
    let first = locals.create(ValType::I32);
    let second = locals.create(ValType::I64);
    locals.set_name(second, Some(String::from("index")));
    assert_eq!(locals.lookup(second).name.as_deref(), Some("index"));
    assert_eq!(locals.lookup(second).ty(), ValType::I64);
    assert_eq!(locals.lookup(second).id(), second);
    assert_eq!(locals.lookup(first).name, None);
    assert_eq!(locals.lookup(first).ty(), ValType::I32);
    locals.set_name(second, None);
    assert_eq!(locals.lookup(second).name, None);
    let third = locals.create(ValType::F32);
    assert_eq!(third.index(), 2);
}

#[test]
fn a_node_may_only_name_a_local_that_is_registered() {
    let mut locals = LocalRegistry::new();
    let known = locals.create(ValType::I32);
    let unknown = LocalId::new(known.arena, 1);
    let value = ExprId::new(0, 1);
    assert!(locals.knows(&Expr::LocalGet(LocalGet { local: known })));
    assert!(locals.knows(&Expr::LocalSet(LocalSet { local: known, value })));
    assert!(locals.knows(&Expr::LocalTee(LocalTee { local: known, value })));
    assert!(!locals.knows(&Expr::LocalGet(LocalGet { local: unknown })));
    assert!(!locals.knows(&Expr::LocalSet(LocalSet { local: unknown, value })));
    assert!(!locals.knows(&Expr::LocalTee(LocalTee { local: unknown, value })));
    // A node that names no local is no concern of the registry.
    assert!(locals.knows(&Expr::Drop(Drop { expr: value })));
    assert_eq!(Expr::Drop(Drop { expr: value }).local_id(), None);
    assert_eq!(Expr::LocalTee(LocalTee { local: known, value }).local_id(), Some(known));
}

#[test]
fn ids_are_ordered_by_arena_and_then_by_position() {
    assert!(LocalId::new(0, 5) < LocalId::new(1, 0));
    assert!(LocalId::new(1, 0) < LocalId::new(1, 1));
    assert!(ExprId::new(2, 9) < ExprId::new(3, 0));
    assert!(ExprId::new(3, 0) < ExprId::new(3, 4));
}
