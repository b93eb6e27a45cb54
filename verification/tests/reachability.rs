use walrus::ir::{
    BinaryOp, Binop, Block, BlockId, BlockKind, Br, BrIf, BrTable, Call, CallIndirect, Const, Drop,
    Expr, ExprId, FunctionId, GlobalGet, GlobalId, GlobalSet, IfElse, Load, LoadKind, LocalGet,
    LocalId, LocalSet, LocalTee, MemArg, MemoryGrow, MemoryId, MemorySize, Return, Select, Store,
    StoreKind, TableId, TypeId, UnaryOp, Unop, Unreachable, Value,
};
use walrus::ty::ValType;

fn id(index: usize) -> ExprId {
    ExprId::new(0, index)
}

fn block(index: usize) -> BlockId {
    BlockId(id(index))
}

fn local() -> LocalId {
    LocalId::new(0, 0)
}

fn arg() -> MemArg {
    MemArg { align: 4, offset: 0 }
}

/// One node of each kind, with whether control stops at it.
fn one_of_each() -> Vec<(Expr, bool)> {
    vec![
        (Expr::Block(Block::new(BlockKind::Block, vec![], vec![])), false),
        (Expr::Block(Block::new(BlockKind::Loop, vec![], vec![])), false),
        (Expr::Call(Call { func: FunctionId(0), args: vec![id(1)] }), false),
        (
            Expr::CallIndirect(CallIndirect {
                ty: TypeId(0),
                table: TableId(0),
                func: id(1),
                args: vec![],
            }),
            false,
        ),
        (Expr::LocalGet(LocalGet { local: local() }), false),
        (Expr::LocalSet(LocalSet { local: local(), value: id(1) }), false),
        (Expr::LocalTee(LocalTee { local: local(), value: id(1) }), false),
        (Expr::GlobalGet(GlobalGet { global: GlobalId(0) }), false),
        (Expr::GlobalSet(GlobalSet { global: GlobalId(0), value: id(1) }), false),
        (Expr::Const(Const { value: Value::I32(7) }), false),
        (Expr::Binop(Binop { op: BinaryOp::I32Add, lhs: id(1), rhs: id(2) }), false),
        (Expr::Unop(Unop { op: UnaryOp::I32Eqz, expr: id(1) }), false),
        (Expr::Select(Select { condition: id(1), consequent: id(2), alternative: id(3) }), false),
        (Expr::Unreachable(Unreachable {}), true),
        (Expr::Br(Br { block: block(0), args: vec![] }), true),
        (Expr::BrIf(BrIf { condition: id(1), block: block(0), args: vec![] }), false),
        (
            Expr::IfElse(IfElse { condition: id(1), consequent: block(2), alternative: block(3) }),
            false,
        ),
        (
            Expr::BrTable(BrTable {
                which: id(1),
                blocks: vec![block(0)],
                default: block(0),
                args: vec![],
            }),
            true,
        ),
        (Expr::Drop(Drop { expr: id(1) }), false),
        (Expr::Return(Return { values: vec![] }), true),
        (Expr::MemorySize(MemorySize { memory: MemoryId(0) }), false),
        (Expr::MemoryGrow(MemoryGrow { memory: MemoryId(0), pages: id(1) }), false),
        (Expr::Load(Load { memory: MemoryId(0), kind: LoadKind::I32, arg: arg(), address: id(1) }), false),
        (
            Expr::Store(Store {
                memory: MemoryId(0),
                kind: StoreKind::I32,
                arg: arg(),
                address: id(1),
                value: id(2),
            }),
            false,
        ),
    ]
}

#[test]
fn each_kind_is_classified() {
    for (node, stops) in one_of_each() {
        assert_eq!(node.following_instructions_are_unreachable(), stops, "{:?}", node);
    }
}

#[test]
fn exactly_four_kinds_stop_control() {
    let stopping: Vec<Expr> = one_of_each()
        .into_iter()
        .filter(|(node, _)| node.following_instructions_are_unreachable())
        .map(|(node, _)| node)
        .collect();
    assert_eq!(stopping.len(), 4);
    assert!(matches!(stopping[0], Expr::Unreachable(_)));
    assert!(matches!(stopping[1], Expr::Br(_)));
    assert!(matches!(stopping[2], Expr::BrTable(_)));
    assert!(matches!(stopping[3], Expr::Return(_)));
}

#[test]
fn conditional_control_falls_through() {
    let br_if = Expr::BrIf(BrIf { condition: id(1), block: block(0), args: vec![id(2)] });
    assert!(!br_if.following_instructions_are_unreachable());
    let if_else =
        Expr::IfElse(IfElse { condition: id(1), consequent: block(2), alternative: block(3) });
    assert!(!if_else.following_instructions_are_unreachable());
}

#[test]
fn a_branch_with_arguments_still_stops_control() {
    let br = Expr::Br(Br { block: block(0), args: vec![id(1), id(2)] });
    assert!(br.following_instructions_are_unreachable());
    let ret = Expr::Return(Return { values: vec![id(1)] });
    assert!(ret.following_instructions_are_unreachable());
}

#[test]
fn operands_come_in_field_order() {
    let call = Expr::CallIndirect(CallIndirect {
        ty: TypeId(0),
        table: TableId(0),
        func: id(9),
        args: vec![id(1), id(2)],
    });
    assert_eq!(call.operand_ids(), vec![id(9), id(1), id(2)]);
    let store = Expr::Store(Store {
        memory: MemoryId(0),
        kind: StoreKind::I64_8,
        arg: arg(),
        address: id(4),
        value: id(3),
    });
    assert_eq!(store.operand_ids(), vec![id(4), id(3)]);
    let select = Expr::Select(Select { condition: id(3), consequent: id(1), alternative: id(2) });
    assert_eq!(select.operand_ids(), vec![id(3), id(1), id(2)]);
    let br_if = Expr::BrIf(BrIf { condition: id(5), block: block(0), args: vec![id(6), id(7)] });
    assert_eq!(br_if.operand_ids(), vec![id(5), id(6), id(7)]);
    let if_else =
        Expr::IfElse(IfElse { condition: id(1), consequent: block(2), alternative: block(3) });
    assert_eq!(if_else.operand_ids(), vec![id(1), id(2), id(3)]);
    let constant = Expr::Const(Const { value: Value::F32(0x3f80_0000) });
    assert_eq!(constant.operand_ids(), vec![]);
}

#[test]
fn a_target_is_no_operand() {
    let br = Expr::Br(Br { block: block(8), args: vec![id(1)] });
    assert_eq!(br.operand_ids(), vec![id(1)]);
    assert_eq!(br.target_ids(), vec![block(8)]);
    assert_eq!(br.branch_arg_count(), 1);
    let table = Expr::BrTable(BrTable {
        which: id(1),
        blocks: vec![block(2), block(3)],
        default: block(4),
        args: vec![id(5)],
    });
    assert_eq!(table.operand_ids(), vec![id(1), id(5)]);
    assert_eq!(table.target_ids(), vec![block(2), block(3), block(4)]);
    let sum = Expr::Binop(Binop { op: BinaryOp::I32Add, lhs: id(1), rhs: id(2) });
    assert_eq!(sum.target_ids(), vec![]);
    assert_eq!(sum.branch_arg_count(), 0);
}

#[test]
fn a_tee_has_the_operand_of_a_set() {
    let tee = Expr::LocalTee(LocalTee { local: local(), value: id(3) });
    let set = Expr::LocalSet(LocalSet { local: local(), value: id(3) });
    assert_eq!(tee.operand_ids(), vec![id(3)]);
    assert_eq!(tee.operand_ids(), set.operand_ids());
    assert!(!tee.following_instructions_are_unreachable());
    assert!(!set.following_instructions_are_unreachable());
}

#[test]
fn a_new_block_is_empty() {
    let block = Block::new(BlockKind::Loop, vec![ValType::I32], vec![]);
    assert_eq!(block.kind, BlockKind::Loop);
    assert_eq!(block.params, vec![ValType::I32]);
    assert_eq!(block.results, vec![]);
    assert!(block.exprs.is_empty());
}

#[test]
fn a_branch_to_a_loop_brings_its_parameters() {
    let params = vec![ValType::I32, ValType::I64];
    let results = vec![ValType::F32];
    assert_eq!(Block::new(BlockKind::Loop, params.clone(), results.clone()).arity(), 2);
    assert_eq!(Block::new(BlockKind::Block, params.clone(), results.clone()).arity(), 1);
    assert_eq!(Block::new(BlockKind::IfElse, params.clone(), results.clone()).arity(), 1);
    assert_eq!(Block::new(BlockKind::FunctionEntry, params, results).arity(), 1);
}
