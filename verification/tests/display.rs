use walrus::ir::display::{
    display_binop_name, display_block_name, display_br, display_br_if, display_br_table,
    display_unop_name, dot_binop_name, dot_block_name, dot_unop_name,
};
use walrus::ir::{
    BinaryOp, Binop, Block, BlockId, BlockKind, Br, BrIf, BrTable, ExprId, UnaryOp, Unop,
};
use walrus::text::push_decimal;

fn e(index: usize) -> ExprId {
    ExprId::new(7, index)
}

fn b(index: usize) -> BlockId {
    BlockId(e(index))
}

fn all_binary() -> Vec<BinaryOp> {
    vec![
        BinaryOp::I32Eq, BinaryOp::I32Ne, BinaryOp::I32LtS, BinaryOp::I32LtU, BinaryOp::I32GtS,
        BinaryOp::I32GtU, BinaryOp::I32LeS, BinaryOp::I32LeU, BinaryOp::I32GeS, BinaryOp::I32GeU,
        BinaryOp::I64Eq, BinaryOp::I64Ne, BinaryOp::I64LtS, BinaryOp::I64LtU, BinaryOp::I64GtS,
        BinaryOp::I64GtU, BinaryOp::I64LeS, BinaryOp::I64LeU, BinaryOp::I64GeS, BinaryOp::I64GeU,
        BinaryOp::F32Eq, BinaryOp::F32Ne, BinaryOp::F32Lt, BinaryOp::F32Gt, BinaryOp::F32Le,
        BinaryOp::F32Ge, BinaryOp::F64Eq, BinaryOp::F64Ne, BinaryOp::F64Lt, BinaryOp::F64Gt,
        BinaryOp::F64Le, BinaryOp::F64Ge, BinaryOp::I32Add, BinaryOp::I32Sub, BinaryOp::I32Mul,
        BinaryOp::I32DivS, BinaryOp::I32DivU, BinaryOp::I32RemS, BinaryOp::I32RemU,
        BinaryOp::I32And, BinaryOp::I32Or, BinaryOp::I32Xor, BinaryOp::I32Shl, BinaryOp::I32ShrS,
        BinaryOp::I32ShrU, BinaryOp::I32Rotl, BinaryOp::I32Rotr, BinaryOp::I64Add,
        BinaryOp::I64Sub, BinaryOp::I64Mul, BinaryOp::I64DivS, BinaryOp::I64DivU,
        BinaryOp::I64RemS, BinaryOp::I64RemU, BinaryOp::I64And, BinaryOp::I64Or, BinaryOp::I64Xor,
        BinaryOp::I64Shl, BinaryOp::I64ShrS, BinaryOp::I64ShrU, BinaryOp::I64Rotl,
        BinaryOp::I64Rotr, BinaryOp::F32Add, BinaryOp::F32Sub, BinaryOp::F32Mul, BinaryOp::F32Div,
        BinaryOp::F32Min, BinaryOp::F32Max, BinaryOp::F32Copysign, BinaryOp::F64Add,
        BinaryOp::F64Sub, BinaryOp::F64Mul, BinaryOp::F64Div, BinaryOp::F64Min, BinaryOp::F64Max,
        BinaryOp::F64Copysign,
    ]
}

fn all_unary() -> Vec<UnaryOp> {
    vec![
        UnaryOp::I32Eqz, UnaryOp::I32Clz, UnaryOp::I32Ctz, UnaryOp::I32Popcnt, UnaryOp::I64Eqz,
        UnaryOp::I64Clz, UnaryOp::I64Ctz, UnaryOp::I64Popcnt, UnaryOp::F32Abs, UnaryOp::F32Neg,
        UnaryOp::F32Ceil, UnaryOp::F32Floor, UnaryOp::F32Trunc, UnaryOp::F32Nearest,
        UnaryOp::F32Sqrt, UnaryOp::F64Abs, UnaryOp::F64Neg, UnaryOp::F64Ceil, UnaryOp::F64Floor,
        UnaryOp::F64Trunc, UnaryOp::F64Nearest, UnaryOp::F64Sqrt, UnaryOp::I32WrapI64,
        UnaryOp::I32TruncSF32, UnaryOp::I32TruncUF32, UnaryOp::I32TruncSF64, UnaryOp::I32TruncUF64,
        UnaryOp::I64ExtendSI32, UnaryOp::I64ExtendUI32, UnaryOp::I64TruncSF32,
        UnaryOp::I64TruncUF32, UnaryOp::I64TruncSF64, UnaryOp::I64TruncUF64,
        UnaryOp::F32ConvertSI32, UnaryOp::F32ConvertUI32, UnaryOp::F32ConvertSI64,
        UnaryOp::F32ConvertUI64, UnaryOp::F32DemoteF64, UnaryOp::F64ConvertSI32,
        UnaryOp::F64ConvertUI32, UnaryOp::F64ConvertSI64, UnaryOp::F64ConvertUI64,
        UnaryOp::F64PromoteF32, UnaryOp::I32ReinterpretF32, UnaryOp::I64ReinterpretF64,
        UnaryOp::F32ReinterpretI32, UnaryOp::F64ReinterpretI64,
    ]
}

#[test]
fn binop_renders_the_name_of_its_case() {
    let node = Binop { op: BinaryOp::I32Add, lhs: e(1), rhs: e(2) };
    let mut out = String::new();
    display_binop_name(&node, &mut out);
    assert_eq!(out, "I32Add");
    let mut dot = String::new();
    dot_binop_name(&node, &mut dot);
    assert_eq!(dot, "I32Add");
}

#[test]
fn unop_renders_the_name_of_its_case() {
    let node = Unop { op: UnaryOp::F64PromoteF32, expr: e(1) };
    let mut out = String::new();
    display_unop_name(&node, &mut out);
    assert_eq!(out, "F64PromoteF32");
    let mut dot = String::new();
    dot_unop_name(&node, &mut dot);
    assert_eq!(dot, "F64PromoteF32");
}

#[test]
fn every_operator_is_named_as_its_case_is_spelled() {
    let binary = all_binary();
    assert_eq!(binary.len(), 76);
    for op in binary {
        assert_eq!(op.as_str(), format!("{:?}", op));
        let mut out = String::from("(");
        display_binop_name(&Binop { op, lhs: e(0), rhs: e(0) }, &mut out);
        assert_eq!(out, format!("({:?}", op));
    }
    let unary = all_unary();
    assert_eq!(unary.len(), 47);
    for op in unary {
        assert_eq!(op.as_str(), format!("{:?}", op));
        let mut out = String::from("(");
        dot_unop_name(&Unop { op, expr: e(0) }, &mut out);
        assert_eq!(out, format!("({:?}", op));
    }
}

#[test]
fn br_names_its_target() {
    let mut out = String::new();
    display_br(&Br { block: b(2), args: vec![] }, &mut out);
    assert_eq!(out, " (;e2;)");
}

#[test]
fn br_note_follows_what_is_there() {
    let mut out = String::from("br");
    display_br(&Br { block: b(2), args: vec![e(1)] }, &mut out);
    assert_eq!(out, "br (;e2;)");
}

#[test]
fn br_if_names_its_target() {
    let mut out = String::new();
    display_br_if(&BrIf { condition: e(1), block: b(13), args: vec![] }, &mut out);
    assert_eq!(out, " (;e13;)");
}

#[test]
fn br_table_lists_its_entries_after_the_default() {
    let node = BrTable { which: e(1), blocks: vec![b(2), b(3)], default: b(4), args: vec![] };
    let mut out = String::new();
    display_br_table(&node, &mut out);
    assert_eq!(out, " (;default:e4  [e2 e3];)");
}

#[test]
fn br_table_with_an_empty_table() {
    let node = BrTable { which: e(1), blocks: vec![], default: b(0), args: vec![] };
    let mut out = String::new();
    display_br_table(&node, &mut out);
    assert_eq!(out, " (;default:e0  [];)");
}

#[test]
fn br_table_with_one_entry_and_long_numbers() {
    let node = BrTable { which: e(1), blocks: vec![b(1234)], default: b(100), args: vec![] };
    let mut out = String::from("br_table");
    display_br_table(&node, &mut out);
    assert_eq!(out, "br_table (;default:e100  [e1234];)");
}

#[test]
fn br_table_repeats_an_entry_that_is_there_twice() {
    let node = BrTable { which: e(1), blocks: vec![b(5), b(5), b(6)], default: b(5), args: vec![] };
    let mut out = String::new();
    display_br_table(&node, &mut out);
    assert_eq!(out, " (;default:e5  [e5 e5 e6];)");
}

#[test]
fn block_keywords() {
    let keyword = |kind: BlockKind| {
        let mut out = String::new();
        display_block_name(&Block::new(kind, vec![], vec![]), &mut out);
        out
    };
    assert_eq!(keyword(BlockKind::Loop), "loop");
    assert_eq!(keyword(BlockKind::Block), "block");
    assert_eq!(keyword(BlockKind::IfElse), "block");
    assert_eq!(keyword(BlockKind::FunctionEntry), "block");
}

#[test]
fn block_labels_in_the_graph() {
    let label = |kind: BlockKind| {
        let mut out = String::new();
        dot_block_name(&Block::new(kind, vec![], vec![]), &mut out);
        out
    };
    assert_eq!(label(BlockKind::Loop), "loop");
    assert_eq!(label(BlockKind::Block), "block");
    assert_eq!(label(BlockKind::IfElse), "if_else");
    assert_eq!(label(BlockKind::FunctionEntry), "entry");
}

#[test]
fn a_node_is_named_by_its_position_in_the_graph() {
    let mut out = String::new();
    e(42).dot(&mut out);
    assert_eq!(out, "expr_42");
    let mut zero = String::from("n: ");
    e(0).dot(&mut zero);
    assert_eq!(zero, "n: expr_0");
}

#[test]
fn numbers_are_written_in_base_ten() {
    for n in [0usize, 1, 9, 10, 11, 99, 100, 101, 909, 1000, 65535, 4294967295, usize::MAX] {
        let mut out = String::new();
        push_decimal(&mut out, n);
        assert_eq!(out, n.to_string());
    }
}
