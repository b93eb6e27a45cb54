//! The operators of the numeric instructions.
use vstd::prelude::*;

verus! {

/// The operators that take two operands.
#[allow(missing_docs)]
#[derive(Clone, Copy, Debug, PartialEq, Eq, Hash, Structural)]
pub enum BinaryOp {
    I32Eq,
    I32Ne,
    I32LtS,
    I32LtU,
    I32GtS,
    I32GtU,
    I32LeS,
    I32LeU,
    I32GeS,
    I32GeU,

    I64Eq,
    I64Ne,
    I64LtS,
    I64LtU,
    I64GtS,
    I64GtU,
    I64LeS,
    I64LeU,
    I64GeS,
    I64GeU,

    F32Eq,
    F32Ne,
    F32Lt,
    F32Gt,
    F32Le,
    F32Ge,

    F64Eq,
    F64Ne,
    F64Lt,
    F64Gt,
    F64Le,
    F64Ge,

    I32Add,
    I32Sub,
    I32Mul,
    I32DivS,
    I32DivU,
    I32RemS,
    I32RemU,
    I32And,
    I32Or,
    I32Xor,
    I32Shl,
    I32ShrS,
    I32ShrU,
    I32Rotl,
    I32Rotr,

    I64Add,
    I64Sub,
    I64Mul,
    I64DivS,
    I64DivU,
    I64RemS,
    I64RemU,
    I64And,
    I64Or,
    I64Xor,
    I64Shl,
    I64ShrS,
    I64ShrU,
    I64Rotl,
    I64Rotr,

    F32Add,
    F32Sub,
    F32Mul,
    F32Div,
    F32Min,
    F32Max,
    F32Copysign,

    F64Add,
    F64Sub,
    F64Mul,
    F64Div,
    F64Min,
    F64Max,
    F64Copysign,
}

/// The operators that take one operand.
#[allow(missing_docs)]
#[derive(Clone, Copy, Debug, PartialEq, Eq, Hash, Structural)]
pub enum UnaryOp {
    I32Eqz,
    I32Clz,
    I32Ctz,
    I32Popcnt,

    I64Eqz,
    I64Clz,
    I64Ctz,
    I64Popcnt,

    F32Abs,
    F32Neg,
    F32Ceil,
    F32Floor,
    F32Trunc,
    F32Nearest,
    F32Sqrt,

    F64Abs,
    F64Neg,
    F64Ceil,
    F64Floor,
    F64Trunc,
    F64Nearest,
    F64Sqrt,

    I32WrapI64,
    I32TruncSF32,
    I32TruncUF32,
    I32TruncSF64,
    I32TruncUF64,
    I64ExtendSI32,
    I64ExtendUI32,
    I64TruncSF32,
    I64TruncUF32,
    I64TruncSF64,
    I64TruncUF64,

    F32ConvertSI32,
    F32ConvertUI32,
    F32ConvertSI64,
    F32ConvertUI64,
    F32DemoteF64,
    F64ConvertSI32,
    F64ConvertUI32,
    F64ConvertSI64,
    F64ConvertUI64,
    F64PromoteF32,

    I32ReinterpretF32,
    I64ReinterpretF64,
    F32ReinterpretI32,
    F64ReinterpretI64,
}

impl BinaryOp {
    /// The name of this operator: the spelling of its case.
    pub open spec fn name(self) -> Seq<char> {
        match self {
            BinaryOp::I32Eq => "I32Eq"@,
            BinaryOp::I32Ne => "I32Ne"@,
            BinaryOp::I32LtS => "I32LtS"@,
            BinaryOp::I32LtU => "I32LtU"@,
            BinaryOp::I32GtS => "I32GtS"@,
            BinaryOp::I32GtU => "I32GtU"@,
            BinaryOp::I32LeS => "I32LeS"@,
            BinaryOp::I32LeU => "I32LeU"@,
            BinaryOp::I32GeS => "I32GeS"@,
            BinaryOp::I32GeU => "I32GeU"@,
            BinaryOp::I64Eq => "I64Eq"@,
            BinaryOp::I64Ne => "I64Ne"@,
            BinaryOp::I64LtS => "I64LtS"@,
            BinaryOp::I64LtU => "I64LtU"@,
            BinaryOp::I64GtS => "I64GtS"@,
            BinaryOp::I64GtU => "I64GtU"@,
            BinaryOp::I64LeS => "I64LeS"@,
            BinaryOp::I64LeU => "I64LeU"@,
            BinaryOp::I64GeS => "I64GeS"@,
            BinaryOp::I64GeU => "I64GeU"@,
            BinaryOp::F32Eq => "F32Eq"@,
            BinaryOp::F32Ne => "F32Ne"@,
            BinaryOp::F32Lt => "F32Lt"@,
            BinaryOp::F32Gt => "F32Gt"@,
            BinaryOp::F32Le => "F32Le"@,
            BinaryOp::F32Ge => "F32Ge"@,
            BinaryOp::F64Eq => "F64Eq"@,
            BinaryOp::F64Ne => "F64Ne"@,
            BinaryOp::F64Lt => "F64Lt"@,
            BinaryOp::F64Gt => "F64Gt"@,
            BinaryOp::F64Le => "F64Le"@,
            BinaryOp::F64Ge => "F64Ge"@,
            BinaryOp::I32Add => "I32Add"@,
            BinaryOp::I32Sub => "I32Sub"@,
            BinaryOp::I32Mul => "I32Mul"@,
            BinaryOp::I32DivS => "I32DivS"@,
            BinaryOp::I32DivU => "I32DivU"@,
            BinaryOp::I32RemS => "I32RemS"@,
            BinaryOp::I32RemU => "I32RemU"@,
            BinaryOp::I32And => "I32And"@,
            BinaryOp::I32Or => "I32Or"@,
            BinaryOp::I32Xor => "I32Xor"@,
            BinaryOp::I32Shl => "I32Shl"@,
            BinaryOp::I32ShrS => "I32ShrS"@,
            BinaryOp::I32ShrU => "I32ShrU"@,
            BinaryOp::I32Rotl => "I32Rotl"@,
            BinaryOp::I32Rotr => "I32Rotr"@,
            BinaryOp::I64Add => "I64Add"@,
            BinaryOp::I64Sub => "I64Sub"@,
            BinaryOp::I64Mul => "I64Mul"@,
            BinaryOp::I64DivS => "I64DivS"@,
            BinaryOp::I64DivU => "I64DivU"@,
            BinaryOp::I64RemS => "I64RemS"@,
            BinaryOp::I64RemU => "I64RemU"@,
            BinaryOp::I64And => "I64And"@,
            BinaryOp::I64Or => "I64Or"@,
            BinaryOp::I64Xor => "I64Xor"@,
            BinaryOp::I64Shl => "I64Shl"@,
            BinaryOp::I64ShrS => "I64ShrS"@,
            BinaryOp::I64ShrU => "I64ShrU"@,
            BinaryOp::I64Rotl => "I64Rotl"@,
            BinaryOp::I64Rotr => "I64Rotr"@,
            BinaryOp::F32Add => "F32Add"@,
            BinaryOp::F32Sub => "F32Sub"@,
            BinaryOp::F32Mul => "F32Mul"@,
            BinaryOp::F32Div => "F32Div"@,
            BinaryOp::F32Min => "F32Min"@,
            BinaryOp::F32Max => "F32Max"@,
            BinaryOp::F32Copysign => "F32Copysign"@,
            BinaryOp::F64Add => "F64Add"@,
            BinaryOp::F64Sub => "F64Sub"@,
            BinaryOp::F64Mul => "F64Mul"@,
            BinaryOp::F64Div => "F64Div"@,
            BinaryOp::F64Min => "F64Min"@,
            BinaryOp::F64Max => "F64Max"@,
            BinaryOp::F64Copysign => "F64Copysign"@,
        }
    }

    /// The name of this operator as a string slice.
    pub fn as_str(&self) -> (name: &'static str)
        ensures
            name@ == self.name(),
    {
        match self {
            BinaryOp::I32Eq => "I32Eq",
            BinaryOp::I32Ne => "I32Ne",
            BinaryOp::I32LtS => "I32LtS",
            BinaryOp::I32LtU => "I32LtU",
            BinaryOp::I32GtS => "I32GtS",
            BinaryOp::I32GtU => "I32GtU",
            BinaryOp::I32LeS => "I32LeS",
            BinaryOp::I32LeU => "I32LeU",
            BinaryOp::I32GeS => "I32GeS",
            BinaryOp::I32GeU => "I32GeU",
            BinaryOp::I64Eq => "I64Eq",
            BinaryOp::I64Ne => "I64Ne",
            BinaryOp::I64LtS => "I64LtS",
            BinaryOp::I64LtU => "I64LtU",
            BinaryOp::I64GtS => "I64GtS",
            BinaryOp::I64GtU => "I64GtU",
            BinaryOp::I64LeS => "I64LeS",
            BinaryOp::I64LeU => "I64LeU",
            BinaryOp::I64GeS => "I64GeS",
            BinaryOp::I64GeU => "I64GeU",
            BinaryOp::F32Eq => "F32Eq",
            BinaryOp::F32Ne => "F32Ne",
            BinaryOp::F32Lt => "F32Lt",
            BinaryOp::F32Gt => "F32Gt",
            BinaryOp::F32Le => "F32Le",
            BinaryOp::F32Ge => "F32Ge",
            BinaryOp::F64Eq => "F64Eq",
            BinaryOp::F64Ne => "F64Ne",
            BinaryOp::F64Lt => "F64Lt",
            BinaryOp::F64Gt => "F64Gt",
            BinaryOp::F64Le => "F64Le",
            BinaryOp::F64Ge => "F64Ge",
            BinaryOp::I32Add => "I32Add",
            BinaryOp::I32Sub => "I32Sub",
            BinaryOp::I32Mul => "I32Mul",
            BinaryOp::I32DivS => "I32DivS",
            BinaryOp::I32DivU => "I32DivU",
            BinaryOp::I32RemS => "I32RemS",
            BinaryOp::I32RemU => "I32RemU",
            BinaryOp::I32And => "I32And",
            BinaryOp::I32Or => "I32Or",
            BinaryOp::I32Xor => "I32Xor",
            BinaryOp::I32Shl => "I32Shl",
            BinaryOp::I32ShrS => "I32ShrS",
            BinaryOp::I32ShrU => "I32ShrU",
            BinaryOp::I32Rotl => "I32Rotl",
            BinaryOp::I32Rotr => "I32Rotr",
            BinaryOp::I64Add => "I64Add",
            BinaryOp::I64Sub => "I64Sub",
            BinaryOp::I64Mul => "I64Mul",
            BinaryOp::I64DivS => "I64DivS",
            BinaryOp::I64DivU => "I64DivU",
            BinaryOp::I64RemS => "I64RemS",
            BinaryOp::I64RemU => "I64RemU",
            BinaryOp::I64And => "I64And",
            BinaryOp::I64Or => "I64Or",
            BinaryOp::I64Xor => "I64Xor",
            BinaryOp::I64Shl => "I64Shl",
            BinaryOp::I64ShrS => "I64ShrS",
            BinaryOp::I64ShrU => "I64ShrU",
            BinaryOp::I64Rotl => "I64Rotl",
            BinaryOp::I64Rotr => "I64Rotr",
            BinaryOp::F32Add => "F32Add",
            BinaryOp::F32Sub => "F32Sub",
            BinaryOp::F32Mul => "F32Mul",
            BinaryOp::F32Div => "F32Div",
            BinaryOp::F32Min => "F32Min",
            BinaryOp::F32Max => "F32Max",
            BinaryOp::F32Copysign => "F32Copysign",
            BinaryOp::F64Add => "F64Add",
            BinaryOp::F64Sub => "F64Sub",
            BinaryOp::F64Mul => "F64Mul",
            BinaryOp::F64Div => "F64Div",
            BinaryOp::F64Min => "F64Min",
            BinaryOp::F64Max => "F64Max",
            BinaryOp::F64Copysign => "F64Copysign",
        }
    }
}

impl UnaryOp {
    /// The name of this operator: the spelling of its case.
    pub open spec fn name(self) -> Seq<char> {
        match self {
            UnaryOp::I32Eqz => "I32Eqz"@,
            UnaryOp::I32Clz => "I32Clz"@,
            UnaryOp::I32Ctz => "I32Ctz"@,
            UnaryOp::I32Popcnt => "I32Popcnt"@,
            UnaryOp::I64Eqz => "I64Eqz"@,
            UnaryOp::I64Clz => "I64Clz"@,
            UnaryOp::I64Ctz => "I64Ctz"@,
            UnaryOp::I64Popcnt => "I64Popcnt"@,
            UnaryOp::F32Abs => "F32Abs"@,
            UnaryOp::F32Neg => "F32Neg"@,
            UnaryOp::F32Ceil => "F32Ceil"@,
            UnaryOp::F32Floor => "F32Floor"@,
            UnaryOp::F32Trunc => "F32Trunc"@,
            UnaryOp::F32Nearest => "F32Nearest"@,
            UnaryOp::F32Sqrt => "F32Sqrt"@,
            UnaryOp::F64Abs => "F64Abs"@,
            UnaryOp::F64Neg => "F64Neg"@,
            UnaryOp::F64Ceil => "F64Ceil"@,
            UnaryOp::F64Floor => "F64Floor"@,
            UnaryOp::F64Trunc => "F64Trunc"@,
            UnaryOp::F64Nearest => "F64Nearest"@,
            UnaryOp::F64Sqrt => "F64Sqrt"@,
            UnaryOp::I32WrapI64 => "I32WrapI64"@,
            UnaryOp::I32TruncSF32 => "I32TruncSF32"@,
            UnaryOp::I32TruncUF32 => "I32TruncUF32"@,
            UnaryOp::I32TruncSF64 => "I32TruncSF64"@,
            UnaryOp::I32TruncUF64 => "I32TruncUF64"@,
            UnaryOp::I64ExtendSI32 => "I64ExtendSI32"@,
            UnaryOp::I64ExtendUI32 => "I64ExtendUI32"@,
            UnaryOp::I64TruncSF32 => "I64TruncSF32"@,
            UnaryOp::I64TruncUF32 => "I64TruncUF32"@,
            UnaryOp::I64TruncSF64 => "I64TruncSF64"@,
            UnaryOp::I64TruncUF64 => "I64TruncUF64"@,
            UnaryOp::F32ConvertSI32 => "F32ConvertSI32"@,
            UnaryOp::F32ConvertUI32 => "F32ConvertUI32"@,
            UnaryOp::F32ConvertSI64 => "F32ConvertSI64"@,
            UnaryOp::F32ConvertUI64 => "F32ConvertUI64"@,
            UnaryOp::F32DemoteF64 => "F32DemoteF64"@,
            UnaryOp::F64ConvertSI32 => "F64ConvertSI32"@,
            UnaryOp::F64ConvertUI32 => "F64ConvertUI32"@,
            UnaryOp::F64ConvertSI64 => "F64ConvertSI64"@,
            UnaryOp::F64ConvertUI64 => "F64ConvertUI64"@,
            UnaryOp::F64PromoteF32 => "F64PromoteF32"@,
            UnaryOp::I32ReinterpretF32 => "I32ReinterpretF32"@,
            UnaryOp::I64ReinterpretF64 => "I64ReinterpretF64"@,
            UnaryOp::F32ReinterpretI32 => "F32ReinterpretI32"@,
            UnaryOp::F64ReinterpretI64 => "F64ReinterpretI64"@,
        }
    }

    /// The name of this operator as a string slice.
    pub fn as_str(&self) -> (name: &'static str)
        ensures
            name@ == self.name(),
    {
        match self {
            UnaryOp::I32Eqz => "I32Eqz",
            UnaryOp::I32Clz => "I32Clz",
            UnaryOp::I32Ctz => "I32Ctz",
            UnaryOp::I32Popcnt => "I32Popcnt",
            UnaryOp::I64Eqz => "I64Eqz",
            UnaryOp::I64Clz => "I64Clz",
            UnaryOp::I64Ctz => "I64Ctz",
            UnaryOp::I64Popcnt => "I64Popcnt",
            UnaryOp::F32Abs => "F32Abs",
            UnaryOp::F32Neg => "F32Neg",
            UnaryOp::F32Ceil => "F32Ceil",
            UnaryOp::F32Floor => "F32Floor",
            UnaryOp::F32Trunc => "F32Trunc",
            UnaryOp::F32Nearest => "F32Nearest",
            UnaryOp::F32Sqrt => "F32Sqrt",
            UnaryOp::F64Abs => "F64Abs",
            UnaryOp::F64Neg => "F64Neg",
            UnaryOp::F64Ceil => "F64Ceil",
            UnaryOp::F64Floor => "F64Floor",
            UnaryOp::F64Trunc => "F64Trunc",
            UnaryOp::F64Nearest => "F64Nearest",
            UnaryOp::F64Sqrt => "F64Sqrt",
            UnaryOp::I32WrapI64 => "I32WrapI64",
            UnaryOp::I32TruncSF32 => "I32TruncSF32",
            UnaryOp::I32TruncUF32 => "I32TruncUF32",
            UnaryOp::I32TruncSF64 => "I32TruncSF64",
            UnaryOp::I32TruncUF64 => "I32TruncUF64",
            UnaryOp::I64ExtendSI32 => "I64ExtendSI32",
            UnaryOp::I64ExtendUI32 => "I64ExtendUI32",
            UnaryOp::I64TruncSF32 => "I64TruncSF32",
            UnaryOp::I64TruncUF32 => "I64TruncUF32",
            UnaryOp::I64TruncSF64 => "I64TruncSF64",
            UnaryOp::I64TruncUF64 => "I64TruncUF64",
            UnaryOp::F32ConvertSI32 => "F32ConvertSI32",
            UnaryOp::F32ConvertUI32 => "F32ConvertUI32",
            UnaryOp::F32ConvertSI64 => "F32ConvertSI64",
            UnaryOp::F32ConvertUI64 => "F32ConvertUI64",
            UnaryOp::F32DemoteF64 => "F32DemoteF64",
            UnaryOp::F64ConvertSI32 => "F64ConvertSI32",
            UnaryOp::F64ConvertUI32 => "F64ConvertUI32",
            UnaryOp::F64ConvertSI64 => "F64ConvertSI64",
            UnaryOp::F64ConvertUI64 => "F64ConvertUI64",
            UnaryOp::F64PromoteF32 => "F64PromoteF32",
            UnaryOp::I32ReinterpretF32 => "I32ReinterpretF32",
            UnaryOp::I64ReinterpretF64 => "I64ReinterpretF64",
            UnaryOp::F32ReinterpretI32 => "F32ReinterpretI32",
            UnaryOp::F64ReinterpretI64 => "F64ReinterpretI64",
        }
    }
}

} // verus!
