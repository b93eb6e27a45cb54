//! The nodes of the expression graph.
//!
//! The nodes follow the WebAssembly instructions closely, but each operand
//! that an instruction would take from the stack is here a reference to the
//! node that produces it, and each control frame is a [`Block`].
pub mod ast;
pub mod display;
pub mod id;
pub mod ops;
pub mod visit;

pub use self::ast::Ast;
pub use self::id::{BlockId, ExprId, FunctionId, GlobalId, LocalId, MemoryId, TableId, TypeId};
pub use self::ops::{BinaryOp, UnaryOp};
pub use self::visit::{Visit, Visitor};
use crate::ty::ValType;
use vstd::prelude::*;

verus! {

/// A local variable or parameter.
#[derive(Clone, Debug, PartialEq, Eq, Hash)]
pub struct Local {
    id: LocalId,
    ty: ValType,
    /// A human-readable name for this local, often useful when debugging.
    pub name: Option<String>,
}

impl Local {
    /// The id of this local.
    pub closed spec fn spec_id(&self) -> LocalId {
        self.id
    }

    /// The type of this local.
    pub closed spec fn spec_ty(&self) -> ValType {
        self.ty
    }

    /// The name of this local, if it was given one.
    pub closed spec fn spec_name(&self) -> Option<String> {
        self.name
    }

    /// Construct a new local from the given id and type. It has no name yet.
    pub fn new(id: LocalId, ty: ValType) -> (local: Local)
        ensures
            local.spec_id() == id,
            local.spec_ty() == ty,
            local.spec_name() is None,
    {
        Local { id, ty, name: None }
    }

    /// Gives this local the name `name`, or takes its name away.
    pub fn rename(&mut self, name: Option<String>)
        ensures
            final(self).spec_name() == name,
            final(self).spec_id() == old(self).spec_id(),
            final(self).spec_ty() == old(self).spec_ty(),
    {
        self.name = name;
    }

    /// Get this local's id.
    #[verifier::when_used_as_spec(spec_id)]
    pub fn id(&self) -> (id: LocalId)
        ensures
            id == self.spec_id(),
    {
        self.id
    }

    /// Get this local's type.
    #[verifier::when_used_as_spec(spec_ty)]
    pub fn ty(&self) -> (ty: ValType)
        ensures
            ty == self.spec_ty(),
    {
        self.ty
    }
}

/// Different kinds of blocks.
#[derive(Clone, Copy, Debug, PartialEq, Eq, Hash, Structural)]
pub enum BlockKind {
    /// A `block` block: a branch to it leaves it.
    Block,
    /// A `loop` block: a branch to it starts it again.
    Loop,
    /// An `if` or `else` block.
    IfElse,
    /// The entry to a function.
    FunctionEntry,
}

/// Constant values that can show up in WebAssembly.
///
/// A float constant is held by its bit pattern, which is what the binary
/// format stores and what keeps two constants apart.
#[derive(Clone, Copy, Debug, PartialEq, Eq, Hash, Structural)]
pub enum Value {
    /// A constant 32-bit integer.
    I32(i32),
    /// A constant 64-bit integer.
    I64(i64),
    /// A constant 32-bit float, as its bits.
    F32(u32),
    /// A constant 64-bit float, as its bits.
    F64(u64),
    /// A constant 128-bit vector register.
    V128(u128),
}

/// The different kinds of load instructions that are part of a `Load` node.
#[allow(missing_docs)]
#[allow(non_camel_case_types)]
#[derive(Clone, Copy, Debug, PartialEq, Eq, Hash, Structural)]
pub enum LoadKind {
    I32,
    I64,
    F32,
    F64,
    V128,
    I32_8 { sign_extend: bool },
    I32_16 { sign_extend: bool },
    I64_8 { sign_extend: bool },
    I64_16 { sign_extend: bool },
    I64_32 { sign_extend: bool },
}

/// The different kinds of store instructions that are part of a `Store` node.
#[allow(missing_docs)]
#[allow(non_camel_case_types)]
#[derive(Clone, Copy, Debug, PartialEq, Eq, Hash, Structural)]
pub enum StoreKind {
    I32,
    I64,
    F32,
    F64,
    V128,
    I32_8,
    I32_16,
    I64_8,
    I64_16,
    I64_32,
}

/// Arguments to memory operations, containing a constant offset from a dynamic
/// address as well as a predicted alignment.
#[derive(Clone, Copy, Debug, PartialEq, Eq, Hash, Structural)]
pub struct MemArg {
    /// The alignment of the memory operation, must be a power of two.
    pub align: u32,
    /// The offset of the memory operation, in bytes from the source address.
    pub offset: u32,
}

/// A block of multiple expressions, and also a control frame.
#[derive(Clone, Debug, PartialEq, Eq)]
pub struct Block {
    /// What kind of block is this?
    pub kind: BlockKind,
    /// The types of the expected values on the stack when entering this block.
    pub params: Vec<ValType>,
    /// The types of the resulting values added to the stack after this block
    /// is evaluated.
    pub results: Vec<ValType>,
    /// The expressions that make up the body of this block, in the order in
    /// which they are evaluated.
    pub exprs: Vec<ExprId>,
}

/// `call`
#[derive(Clone, Debug, PartialEq, Eq)]
pub struct Call {
    /// The function being invoked.
    pub func: FunctionId,
    /// The arguments to the function.
    pub args: Vec<ExprId>,
}

/// `call_indirect`
#[derive(Clone, Debug, PartialEq, Eq)]
pub struct CallIndirect {
    /// The type signature of the function we're calling.
    pub ty: TypeId,
    /// The table which `func` below is indexing into.
    pub table: TableId,
    /// The index of the function we're invoking.
    pub func: ExprId,
    /// The arguments to the function.
    pub args: Vec<ExprId>,
}

/// `local.get n`
#[derive(Clone, Debug, PartialEq, Eq)]
pub struct LocalGet {
    /// The local being got.
    pub local: LocalId,
}

/// `local.set n`
#[derive(Clone, Debug, PartialEq, Eq)]
pub struct LocalSet {
    /// The local being set.
    pub local: LocalId,
    /// The value to set the local to.
    pub value: ExprId,
}

/// `local.tee n`
#[derive(Clone, Debug, PartialEq, Eq)]
pub struct LocalTee {
    /// The local being set.
    pub local: LocalId,
    /// The value to set the local to and return.
    pub value: ExprId,
}

/// `global.get n`
#[derive(Clone, Debug, PartialEq, Eq)]
pub struct GlobalGet {
    /// The global being got.
    pub global: GlobalId,
}

/// `global.set n`
#[derive(Clone, Debug, PartialEq, Eq)]
pub struct GlobalSet {
    /// The global being set.
    pub global: GlobalId,
    /// The value to set the global to.
    pub value: ExprId,
}

/// `*.const`
#[derive(Clone, Debug, PartialEq, Eq)]
pub struct Const {
    /// The constant value.
    pub value: Value,
}

/// Binary operations, those requiring two operands.
#[derive(Clone, Debug, PartialEq, Eq)]
pub struct Binop {
    /// The operation being performed.
    pub op: BinaryOp,
    /// The left-hand operand.
    pub lhs: ExprId,
    /// The right-hand operand.
    pub rhs: ExprId,
}

/// Unary operations, those requiring one operand.
#[derive(Clone, Debug, PartialEq, Eq)]
pub struct Unop {
    /// The operation being performed.
    pub op: UnaryOp,
    /// The input operand.
    pub expr: ExprId,
}

/// `select`
#[derive(Clone, Debug, PartialEq, Eq)]
pub struct Select {
    /// The condition.
    pub condition: ExprId,
    /// The value returned when the condition is true. Evaluated whether or
    /// not the condition is true.
    pub consequent: ExprId,
    /// The value returned when the condition is false. Evaluated whether or
    /// not the condition is false.
    pub alternative: ExprId,
}

/// `unreachable`
#[derive(Clone, Debug, PartialEq, Eq)]
pub struct Unreachable {}

/// `br`
#[derive(Clone, Debug, PartialEq, Eq)]
pub struct Br {
    /// The target block to branch to.
    pub block: BlockId,
    /// The arguments to the block.
    pub args: Vec<ExprId>,
}

/// `br_if`
#[derive(Clone, Debug, PartialEq, Eq)]
pub struct BrIf {
    /// The condition for when to branch.
    pub condition: ExprId,
    /// The target block to branch to when the condition is met.
    pub block: BlockId,
    /// The arguments to the block.
    pub args: Vec<ExprId>,
}

/// `if ... else ... end`
#[derive(Clone, Debug, PartialEq, Eq)]
pub struct IfElse {
    /// The condition.
    pub condition: ExprId,
    /// The block to execute when the condition is true.
    pub consequent: BlockId,
    /// The block to execute when the condition is false.
    pub alternative: BlockId,
}

/// `br_table`
#[derive(Clone, Debug, PartialEq, Eq)]
pub struct BrTable {
    /// The table index of which block to branch to.
    pub which: ExprId,
    /// The table of target blocks.
    pub blocks: Vec<BlockId>,
    /// The block that is branched to by default when `which` is out of the
    /// table's bounds.
    pub default: BlockId,
    /// The arguments to the block.
    pub args: Vec<ExprId>,
}

/// `drop`
#[derive(Clone, Debug, PartialEq, Eq)]
pub struct Drop {
    /// The expression to be evaluated and results ignored.
    pub expr: ExprId,
}

/// `return`
#[derive(Clone, Debug, PartialEq, Eq)]
pub struct Return {
    /// The values being returned.
    pub values: Vec<ExprId>,
}

/// `memory.size`
#[derive(Clone, Debug, PartialEq, Eq)]
pub struct MemorySize {
    /// The memory we're fetching the current size of.
    pub memory: MemoryId,
}

/// `memory.grow`
#[derive(Clone, Debug, PartialEq, Eq)]
pub struct MemoryGrow {
    /// The memory we're growing.
    pub memory: MemoryId,
    /// The number of pages to grow by.
    pub pages: ExprId,
}

/// Loading a value from memory.
#[derive(Clone, Debug, PartialEq, Eq)]
pub struct Load {
    /// The memory we're loading from.
    pub memory: MemoryId,
    /// The kind of memory load this is performing.
    pub kind: LoadKind,
    /// The alignment and offset of this memory load.
    pub arg: MemArg,
    /// The address that we're loading from.
    pub address: ExprId,
}

/// Storing a value to memory.
#[derive(Clone, Debug, PartialEq, Eq)]
pub struct Store {
    /// The memory we're storing to.
    pub memory: MemoryId,
    /// The kind of memory store this is performing.
    pub kind: StoreKind,
    /// The alignment and offset of this memory store.
    pub arg: MemArg,
    /// The address that we're storing to.
    pub address: ExprId,
    /// The value that we're storing.
    pub value: ExprId,
}

/// An enum of all the different kinds of wasm expressions: one case for each
/// family of instructions.
#[derive(Clone, Debug, PartialEq, Eq)]
pub enum Expr {
    /// A block of multiple expressions, and also a control frame.
    Block(Block),
    /// `call`
    Call(Call),
    /// `call_indirect`
    CallIndirect(CallIndirect),
    /// `local.get n`
    LocalGet(LocalGet),
    /// `local.set n`
    LocalSet(LocalSet),
    /// `local.tee n`
    LocalTee(LocalTee),
    /// `global.get n`
    GlobalGet(GlobalGet),
    /// `global.set n`
    GlobalSet(GlobalSet),
    /// `*.const`
    Const(Const),
    /// Binary operations, those requiring two operands.
    Binop(Binop),
    /// Unary operations, those requiring one operand.
    Unop(Unop),
    /// `select`
    Select(Select),
    /// `unreachable`
    Unreachable(Unreachable),
    /// `br`
    Br(Br),
    /// `br_if`
    BrIf(BrIf),
    /// `if ... else ... end`
    IfElse(IfElse),
    /// `br_table`
    BrTable(BrTable),
    /// `drop`
    Drop(Drop),
    /// `return`
    Return(Return),
    /// `memory.size`
    MemorySize(MemorySize),
    /// `memory.grow`
    MemoryGrow(MemoryGrow),
    /// Loading a value from memory.
    Load(Load),
    /// Storing a value to memory.
    Store(Store),
}

impl Block {
    /// Construct a new block, with an empty body.
    pub fn new(kind: BlockKind, params: Vec<ValType>, results: Vec<ValType>) -> (block: Block)
        ensures
            block.kind == kind,
            block.params == params,
            block.results == results,
            block.exprs@ == Seq::<ExprId>::empty(),
    {
        let exprs = Vec::new();
        Block { kind, params, results, exprs }
    }

    /// The number of values that a branch to this block carries: a branch to
    /// a loop starts it again and so brings its parameters, a branch to any
    /// other block leaves it and so brings its results.
    pub open spec fn branch_arity(&self) -> nat {
        match self.kind {
            BlockKind::Loop => self.params@.len(),
            _ => self.results@.len(),
        }
    }

    /// The number of values that a branch to this block carries.
    pub fn arity(&self) -> (n: usize)
        ensures
            n == self.branch_arity(),
    {
        match self.kind {
            BlockKind::Loop => self.params.len(),
            _ => self.results.len(),
        }
    }
}

impl Expr {
    /// Whether control never falls through this node to the instruction that
    /// follows it in the same block.
    pub open spec fn diverts(&self) -> bool {
        self is Unreachable || self is Br || self is BrTable || self is Return
    }

    /// Are any instructions that follow this expression's instruction (within
    /// the current block) unreachable?
    ///
    /// Returns `true` for unconditional branches (`br`, `br_table`, `return`)
    /// and `unreachable`. Returns `false` for all other instructions, the
    /// conditional ones (`br_if`, `if`) among them.
    pub fn following_instructions_are_unreachable(&self) -> (unreachable: bool)
        ensures
            unreachable == self.diverts(),
            unreachable <==> (self is Unreachable || self is Br || self is BrTable
                || self is Return),
    {
        match *self {
            Expr::Unreachable(..) | Expr::Br(..) | Expr::BrTable(..) | Expr::Return(..) => true,
            // No `_` arm, so that a new kind of node cannot be added without
            // a decision here.
            Expr::Block(..)
            | Expr::Call(..)
            | Expr::LocalGet(..)
            | Expr::LocalSet(..)
            | Expr::LocalTee(..)
            | Expr::GlobalGet(..)
            | Expr::GlobalSet(..)
            | Expr::Const(..)
            | Expr::Binop(..)
            | Expr::Unop(..)
            | Expr::Select(..)
            | Expr::BrIf(..)
            | Expr::IfElse(..)
            | Expr::MemorySize(..)
            | Expr::MemoryGrow(..)
            | Expr::CallIndirect(..)
            | Expr::Load(..)
            | Expr::Store(..)
            | Expr::Drop(..) => false,
        }
    }

    /// Whether `other` can stand where this node stands without a branch to
    /// this node losing its target: if this node is a block, `other` is a
    /// block of the same kind to which a branch brings as many values.
    pub open spec fn same_frame(&self, other: Expr) -> bool {
        *self matches Expr::Block(b) ==> (other matches Expr::Block(o) && o.kind == b.kind
            && o.branch_arity() == b.branch_arity())
    }

    /// The nodes that this node evaluates as its operands or holds as its
    /// body, in the order of evaluation, which is the order of the fields.
    ///
    /// The target of a branch is not among them: it is a place to go to, not
    /// a value to compute.
    pub open spec fn operands(&self) -> Seq<ExprId> {
        match *self {
            Expr::Block(b) => b.exprs@,
            Expr::Call(c) => c.args@,
            Expr::CallIndirect(c) => seq![c.func] + c.args@,
            Expr::LocalGet(_) => Seq::empty(),
            Expr::LocalSet(s) => seq![s.value],
            Expr::LocalTee(t) => seq![t.value],
            Expr::GlobalGet(_) => Seq::empty(),
            Expr::GlobalSet(s) => seq![s.value],
            Expr::Const(_) => Seq::empty(),
            Expr::Binop(b) => seq![b.lhs, b.rhs],
            Expr::Unop(u) => seq![u.expr],
            Expr::Select(s) => seq![s.condition, s.consequent, s.alternative],
            Expr::Unreachable(_) => Seq::empty(),
            Expr::Br(b) => b.args@,
            Expr::BrIf(b) => seq![b.condition] + b.args@,
            Expr::IfElse(i) => seq![i.condition, i.consequent.0, i.alternative.0],
            Expr::BrTable(b) => seq![b.which] + b.args@,
            Expr::Drop(d) => seq![d.expr],
            Expr::Return(r) => r.values@,
            Expr::MemorySize(_) => Seq::empty(),
            Expr::MemoryGrow(g) => seq![g.pages],
            Expr::Load(l) => seq![l.address],
            Expr::Store(s) => seq![s.address, s.value],
        }
    }

    /// The blocks that this node may branch to: for a table branch every
    /// entry of the table and then the default. Empty unless the node is a
    /// branch.
    pub open spec fn targets(&self) -> Seq<BlockId> {
        match *self {
            Expr::Br(b) => seq![b.block],
            Expr::BrIf(b) => seq![b.block],
            Expr::BrTable(b) => b.blocks@.push(b.default),
            _ => Seq::empty(),
        }
    }

    /// The values that a branch carries to its target. Empty unless the node
    /// is a branch.
    pub open spec fn branch_args(&self) -> Seq<ExprId> {
        match *self {
            Expr::Br(b) => b.args@,
            Expr::BrIf(b) => b.args@,
            Expr::BrTable(b) => b.args@,
            _ => Seq::empty(),
        }
    }

    /// The local that this node reads or writes, if it is one of the three
    /// kinds of node that name a local.
    pub open spec fn local(&self) -> Option<LocalId> {
        match *self {
            Expr::LocalGet(g) => Some(g.local),
            Expr::LocalSet(s) => Some(s.local),
            Expr::LocalTee(t) => Some(t.local),
            _ => None,
        }
    }

    /// The local that this node reads or writes, if it names one.
    pub fn local_id(&self) -> (local: Option<LocalId>)
        ensures
            local == self.local(),
    {
        match self {
            Expr::LocalGet(g) => Some(g.local),
            Expr::LocalSet(s) => Some(s.local),
            Expr::LocalTee(t) => Some(t.local),
            _ => None,
        }
    }

    /// The number of values that this node carries to the target of its
    /// branch. Zero unless the node is a branch.
    pub fn branch_arg_count(&self) -> (n: usize)
        ensures
            n == self.branch_args().len(),
    {
        match self {
            Expr::Br(b) => b.args.len(),
            Expr::BrIf(b) => b.args.len(),
            Expr::BrTable(b) => b.args.len(),
            _ => 0,
        }
    }

    /// The ids of the operands of this node, in the order of evaluation.
    pub fn operand_ids(&self) -> (ids: Vec<ExprId>)
        ensures
            ids@ == self.operands(),
    {
        let mut ids: Vec<ExprId> = Vec::new();
        match self {
            Expr::Block(b) => extend_ids(&mut ids, &b.exprs),
            Expr::Call(c) => extend_ids(&mut ids, &c.args),
            Expr::CallIndirect(c) => {
                ids.push(c.func);
                extend_ids(&mut ids, &c.args);
            },
            Expr::LocalGet(_) => {},
            Expr::LocalSet(s) => ids.push(s.value),
            Expr::LocalTee(t) => ids.push(t.value),
            Expr::GlobalGet(_) => {},
            Expr::GlobalSet(s) => ids.push(s.value),
            Expr::Const(_) => {},
            Expr::Binop(b) => {
                ids.push(b.lhs);
                ids.push(b.rhs);
            },
            Expr::Unop(u) => ids.push(u.expr),
            Expr::Select(s) => {
                ids.push(s.condition);
                ids.push(s.consequent);
                ids.push(s.alternative);
            },
            Expr::Unreachable(_) => {},
            Expr::Br(b) => extend_ids(&mut ids, &b.args),
            Expr::BrIf(b) => {
                ids.push(b.condition);
                extend_ids(&mut ids, &b.args);
            },
            Expr::IfElse(i) => {
                ids.push(i.condition);
                ids.push(i.consequent.0);
                ids.push(i.alternative.0);
            },
            Expr::BrTable(b) => {
                ids.push(b.which);
                extend_ids(&mut ids, &b.args);
            },
            Expr::Drop(d) => ids.push(d.expr),
            Expr::Return(r) => extend_ids(&mut ids, &r.values),
            Expr::MemorySize(_) => {},
            Expr::MemoryGrow(g) => ids.push(g.pages),
            Expr::Load(l) => ids.push(l.address),
            Expr::Store(s) => {
                ids.push(s.address);
                ids.push(s.value);
            },
        }
        assert(ids@ =~= self.operands());
        ids
    }

    /// The ids of the blocks that this node may branch to.
    pub fn target_ids(&self) -> (ids: Vec<BlockId>)
        ensures
            ids@ == self.targets(),
    {
        let mut ids: Vec<BlockId> = Vec::new();
        match self {
            Expr::Br(b) => ids.push(b.block),
            Expr::BrIf(b) => ids.push(b.block),
            Expr::BrTable(b) => {
                let mut i: usize = 0;
                while i < b.blocks.len()
                    invariant
                        i <= b.blocks.len(),
                        ids@ == b.blocks@.take(i as int),
                    decreases b.blocks.len() - i,
                {
                    ids.push(b.blocks[i]);
                    assert(b.blocks@.take(i + 1) =~= b.blocks@.take(i as int).push(
                        b.blocks@[i as int],
                    ));
                    i = i + 1;
                }
                assert(b.blocks@.take(i as int) =~= b.blocks@);
                ids.push(b.default);
            },
            _ => {},
        }
        assert(ids@ =~= self.targets());
        ids
    }
}

/// Appends `ids` to `out`.
fn extend_ids(out: &mut Vec<ExprId>, ids: &Vec<ExprId>)
    ensures
        final(out)@ == old(out)@ + ids@,
{
    let mut i: usize = 0;
    while i < ids.len()
        invariant
            i <= ids.len(),
            out@ == old(out)@ + ids@.take(i as int),
        decreases ids.len() - i,
    {
        out.push(ids[i]);
        assert(ids@.take(i + 1) =~= ids@.take(i as int).push(ids@[i as int]));
        i = i + 1;
    }
    assert(ids@.take(i as int) =~= ids@);
}

} // verus!
