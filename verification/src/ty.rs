//! Value types.
use vstd::prelude::*;
use vstd::string::StringExecFns;

verus! {

/// The type of a value that a WebAssembly instruction produces or consumes.
#[derive(Clone, Copy, Debug, PartialEq, Eq, Hash, PartialOrd, Ord, Structural)]
pub enum ValType {
    /// A 32-bit integer.
    I32,
    /// A 64-bit integer.
    I64,
    /// A 32-bit float.
    F32,
    /// A 64-bit float.
    F64,
    /// A 128-bit vector.
    V128,
}

impl ValType {
    /// The name of this type in the text format.
    pub open spec fn name(self) -> Seq<char> {
        match self {
            ValType::I32 => "i32"@,
            ValType::I64 => "i64"@,
            ValType::F32 => "f32"@,
            ValType::F64 => "f64"@,
            ValType::V128 => "v128"@,
        }
    }

    /// The result types of a block whose declared type is `block_ty`: the one
    /// type that it names, or none.
    pub open spec fn block_results(block_ty: Option<ValType>) -> Seq<ValType> {
        match block_ty {
            Some(ty) => seq![ty],
            None => Seq::empty(),
        }
    }

    /// Renders this type as the text format writes it.
    pub fn to_string(&self) -> (s: String)
        ensures
            s@ == self.name(),
    {
        let name = match self {
            ValType::I32 => "i32",
            ValType::I64 => "i64",
            ValType::F32 => "f32",
            ValType::F64 => "f64",
            ValType::V128 => "v128",
        };
        String::from_str(name)
    }

    /// The list of result types that a block's declared type stands for.
    pub fn from_block_ty(block_ty: Option<ValType>) -> (results: Vec<ValType>)
        ensures
            results@ == Self::block_results(block_ty),
    {
        let mut results: Vec<ValType> = Vec::new();
        match block_ty {
            Some(ty) => {
                results.push(ty);
                assert(results@ =~= seq![ty]);
            },
            None => {},
        }
        results
    }
}

} // verus!
