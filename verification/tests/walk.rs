use walrus::function::LocalFunction;
use walrus::ir::{
    BinaryOp, Binop, Block, BlockId, BlockKind, Br, BrIf, Const, Drop, Expr, ExprId, IfElse,
    LocalId, LocalSet, LocalTee, Value, Visit, Visitor,
};
use walrus::ty::ValType;

/// A visitor that notes the positions of the nodes that it is shown.
struct Seen<'a> {
    func: &'a LocalFunction,
    positions: Vec<usize>,
    branches: usize,
}

impl<'a> Seen<'a> {
    fn new(func: &'a LocalFunction) -> Seen<'a> {
        Seen { func, positions: Vec::new(), branches: 0 }
    }
}

impl<'a> Visitor<'a> for Seen<'a> {
    fn local_function(&self) -> &'a LocalFunction {
        self.func
    }

    fn visit_expr(&mut self, id: ExprId, expr: &'a Expr) {
        assert_eq!(self.func.get(id), expr);
        self.positions.push(id.index());
        if let Expr::Br(_) = expr {
            self.branches += 1;
        }
    }
}

fn constant(n: i32) -> Expr {
    Expr::Const(Const { value: Value::I32(n) })
}

fn set_body(func: &mut LocalFunction, block: ExprId, body: Vec<ExprId>) {
    match func.get_mut(block) {
        Expr::Block(b) => b.exprs = body,
        other => panic!("{:?} is no block", other),
    }
}

/// entry { loop { br loop }; block { 1; br_if block }; br block }
fn with_branches() -> (LocalFunction, Vec<ExprId>) {
    let mut func = LocalFunction::new(vec![], vec![]);
    let entry = func.entry().expr_id();
    let looping = func.insert(Expr::Block(Block::new(BlockKind::Loop, vec![], vec![])));
    let back = func.insert(Expr::Br(Br { block: BlockId(looping), args: vec![] }));
    let block = func.insert(Expr::Block(Block::new(BlockKind::Block, vec![], vec![])));
    let one = func.insert(constant(1));
    let maybe =
        func.insert(Expr::BrIf(BrIf { condition: one, block: BlockId(block), args: vec![] }));
    let out = func.insert(Expr::Br(Br { block: BlockId(block), args: vec![] }));
    set_body(&mut func, looping, vec![back]);
    set_body(&mut func, block, vec![maybe]);
    set_body(&mut func, entry, vec![looping, block, out]);
    (func, vec![entry, looping, back, block, one, maybe, out])
}

#[test]
fn walk_reaches_operands_in_order() {
    let mut func = LocalFunction::new(vec![], vec![ValType::I32]);
    let one = func.insert(constant(1));
    let two = func.insert(constant(2));
    let sum = func.insert(Expr::Binop(Binop { op: BinaryOp::I32Add, lhs: one, rhs: two }));
    let drop = func.insert(Expr::Drop(Drop { expr: sum }));
    assert_eq!(func.visit_order(drop).unwrap(), vec![drop, sum, one, two]);
    assert_eq!(func.visit_order(sum).unwrap(), vec![sum, one, two]);
    assert_eq!(func.visit_order(two).unwrap(), vec![two]);
    let swapped = func.insert(Expr::Binop(Binop { op: BinaryOp::I32Sub, lhs: two, rhs: one }));
    assert_eq!(func.visit_order(swapped).unwrap(), vec![swapped, two, one]);
}

#[test]
fn walk_goes_through_the_body_of_a_block() {
    let mut func = LocalFunction::new(vec![], vec![]);
    let entry = func.entry().expr_id();
    let one = func.insert(constant(1));
    let first = func.insert(Expr::Drop(Drop { expr: one }));
    let two = func.insert(constant(2));
    let second = func.insert(Expr::Drop(Drop { expr: two }));
    set_body(&mut func, entry, vec![first, second]);
    assert!(func.is_well_formed());
    assert_eq!(func.visit_order(entry).unwrap(), vec![entry, first, one, second, two]);
}

#[test]
fn walk_goes_into_both_arms_of_a_conditional() {
    let mut func = LocalFunction::new(vec![], vec![]);
    let entry = func.entry().expr_id();
    let condition = func.insert(constant(1));
    let then = func.insert(Expr::Block(Block::new(BlockKind::IfElse, vec![], vec![])));
    let otherwise = func.insert(Expr::Block(Block::new(BlockKind::IfElse, vec![], vec![])));
    let inner = func.insert(constant(2));
    let dropped = func.insert(Expr::Drop(Drop { expr: inner }));
    set_body(&mut func, then, vec![dropped]);
    let choice = func.insert(Expr::IfElse(IfElse {
        condition,
        consequent: BlockId(then),
        alternative: BlockId(otherwise),
    }));
    set_body(&mut func, entry, vec![choice]);
    assert!(func.is_well_formed());
    assert_eq!(
        func.visit_order(entry).unwrap(),
        vec![entry, choice, condition, then, dropped, inner, otherwise]
    );
}

#[test]
fn a_block_is_reached_once_however_many_branches_name_it() {
    let (func, ids) = with_branches();
    assert!(func.is_well_formed());
    let order = func.visit_order(ids[0]).unwrap();
    // A conditional branch is reached before the condition that it takes.
    assert_eq!(order, vec![ids[0], ids[1], ids[2], ids[3], ids[5], ids[4], ids[6]]);
    let block = ids[3];
    assert_eq!(order.iter().filter(|id| **id == block).count(), 1);
    let looping = ids[1];
    assert_eq!(order.iter().filter(|id| **id == looping).count(), 1);
    // No node is reached twice.
    for (i, id) in order.iter().enumerate() {
        assert!(!order[..i].contains(id));
    }
}

#[test]
fn a_branch_back_to_a_loop_does_not_make_the_walk_go_round() {
    let (func, ids) = with_branches();
    let looping = ids[1];
    let back = ids[2];
    assert_eq!(func.visit_order(looping).unwrap(), vec![looping, back]);
    assert_eq!(func.visit_order(back).unwrap(), vec![back]);
}

#[test]
fn every_node_reached_is_a_node_of_the_function() {
    let (func, ids) = with_branches();
    for start in &ids {
        for id in func.visit_order(*start).unwrap() {
            assert!(func.contains(id));
            let _ = func.get(id);
        }
    }
}

#[test]
fn a_node_that_is_nested_twice_is_reached_twice() {
    let mut func = LocalFunction::new(vec![], vec![]);
    let one = func.insert(constant(1));
    let twice = func.insert(Expr::Binop(Binop { op: BinaryOp::I32Mul, lhs: one, rhs: one }));
    assert_eq!(func.visit_order(twice).unwrap(), vec![twice, one, one]);
}

#[test]
fn a_node_nested_in_itself_has_no_walk() {
    let mut func = LocalFunction::new(vec![], vec![]);
    let entry = func.entry().expr_id();
    let inner = func.insert(Expr::Block(Block::new(BlockKind::Block, vec![], vec![])));
    let one = func.insert(constant(1));
    set_body(&mut func, entry, vec![inner, one]);
    set_body(&mut func, inner, vec![one, entry]);
    assert!(func.is_well_formed());
    assert_eq!(func.visit_order(entry), None);
    assert_eq!(func.visit_order(inner), None);
    assert_eq!(func.visit_order(one).unwrap(), vec![one]);
    set_body(&mut func, inner, vec![inner]);
    assert_eq!(func.visit_order(inner), None);
    set_body(&mut func, inner, vec![]);
    assert_eq!(func.visit_order(entry).unwrap(), vec![entry, inner, one]);
}

#[test]
fn a_walk_may_be_as_deep_as_the_function_has_nodes() {
    let mut func = LocalFunction::new(vec![], vec![]);
    let entry = func.entry().expr_id();
    let mut expected = vec![entry];
    let mut last = func.insert(constant(0));
    let mut chain = vec![last];
    for _ in 0..50 {
        last = func.insert(Expr::Drop(Drop { expr: last }));
        chain.push(last);
    }
    set_body(&mut func, entry, vec![last]);
    chain.reverse();
    expected.extend(chain);
    assert_eq!(expected.len(), func.len());
    assert_eq!(func.visit_order(entry).unwrap(), expected);
}

#[test]
fn the_visitor_is_shown_what_the_walk_reaches() {
    let (func, ids) = with_branches();
    let mut seen = Seen::new(&func);
    ids[0].visit(&mut seen);
    assert_eq!(seen.positions, vec![0, 1, 2, 3, 5, 4, 6]);
    assert_eq!(seen.branches, 2);
    let mut part = Seen::new(&func);
    BlockId(ids[3]).visit(&mut part);
    assert_eq!(part.positions, vec![3, 5, 4]);
    assert_eq!(part.branches, 0);
}

#[test]
fn the_visitor_goes_on_from_where_it_was() {
    let (func, ids) = with_branches();
    let mut seen = Seen::new(&func);
    ids[1].visit(&mut seen);
    ids[6].visit(&mut seen);
    assert_eq!(seen.positions, vec![1, 2, 6]);
    assert_eq!(seen.branches, 2);
}

#[test]
fn a_tee_is_walked_as_a_set() {
    let local = LocalId::new(0, 0);
    let mut func = LocalFunction::new(vec![], vec![]);
    let entry = func.entry().expr_id();
    let one = func.insert(constant(1));
    let two = func.insert(constant(2));
    let value = func.insert(Expr::Binop(Binop { op: BinaryOp::I32Add, lhs: one, rhs: two }));
    let tee = func.insert(Expr::LocalTee(LocalTee { local, value }));
    let dropped = func.insert(Expr::Drop(Drop { expr: tee }));
    set_body(&mut func, entry, vec![dropped]);
    let with_tee = func.visit_order(entry).unwrap();
    assert_eq!(with_tee, vec![entry, dropped, tee, value, one, two]);
    func.replace(tee, Expr::LocalSet(LocalSet { local, value }));
    assert_eq!(func.visit_order(entry).unwrap(), with_tee);
}
