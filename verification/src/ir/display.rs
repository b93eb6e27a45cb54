//! The text that the nodes contribute to a rendering of the graph.
//!
//! A rendering names a node by the letter `e` and the position of the node
//! in its arena, and an operator by the spelling of its case.
use crate::ir::{Binop, Block, BlockId, BlockKind, Br, BrIf, BrTable, ExprId, Unop};
use crate::text::{decimal, push_decimal};
use vstd::prelude::*;
use vstd::string::StringExecFns;

verus! {

/// The keyword of a block in the text rendering: `loop` for a loop, `block`
/// for every other kind.
pub open spec fn block_keyword(kind: BlockKind) -> Seq<char> {
    match kind {
        BlockKind::Loop => "loop"@,
        _ => "block"@,
    }
}

/// The label of a block in the graph rendering, which tells all the kinds
/// apart.
pub open spec fn block_label(kind: BlockKind) -> Seq<char> {
    match kind {
        BlockKind::Loop => "loop"@,
        BlockKind::IfElse => "if_else"@,
        BlockKind::FunctionEntry => "entry"@,
        BlockKind::Block => "block"@,
    }
}

/// The name of the node at position `index` in the text rendering.
pub open spec fn node_name(index: nat) -> Seq<char> {
    "e"@ + decimal(index)
}

/// The name of the node at position `index` in the graph rendering.
pub open spec fn dot_name(index: nat) -> Seq<char> {
    "expr_"@ + decimal(index)
}

/// The note that follows a branch to the block at position `index`.
pub open spec fn branch_note(index: nat) -> Seq<char> {
    " (;"@ + node_name(index) + ";)"@
}

/// The names of the blocks `blocks`, with one space between each two.
pub open spec fn node_names(blocks: Seq<BlockId>) -> Seq<char>
    decreases blocks.len(),
{
    if blocks.len() == 0 {
        Seq::empty()
    } else if blocks.len() == 1 {
        node_name(blocks[0].0.index as nat)
    } else {
        node_names(blocks.drop_last()) + " "@ + node_name(blocks.last().0.index as nat)
    }
}

/// The note that follows a table branch: the default target, two spaces, and
/// the entries of the table in brackets.
pub open spec fn table_note(blocks: Seq<BlockId>, default: BlockId) -> Seq<char> {
    " (;default:"@ + node_name(default.0.index as nat) + "  ["@ + node_names(blocks) + "];)"@
}

impl ExprId {
    /// Appends the name of this node in the graph rendering to `out`.
    pub fn dot(&self, out: &mut String)
        ensures
            final(out)@ == old(out)@ + dot_name(self.index as nat),
    {
        out.append("expr_");
        push_decimal(out, self.index);
        assert(out@ =~= old(out)@ + dot_name(self.index as nat));
    }
}

/// Appends the name of the block `id` in the text rendering to `out`.
fn push_node_name(id: BlockId, out: &mut String)
    ensures
        final(out)@ == old(out)@ + node_name(id.0.index as nat),
{
    out.append("e");
    push_decimal(out, id.0.index);
    assert(out@ =~= old(out)@ + node_name(id.0.index as nat));
}

/// Appends the keyword of `block` in the text rendering to `out`.
pub fn display_block_name(block: &Block, out: &mut String)
    ensures
        final(out)@ == old(out)@ + block_keyword(block.kind),
{
    match block.kind {
        BlockKind::Loop => out.append("loop"),
        _ => out.append("block"),
    }
}

/// Appends the label of `block` in the graph rendering to `out`.
pub fn dot_block_name(block: &Block, out: &mut String)
    ensures
        final(out)@ == old(out)@ + block_label(block.kind),
{
    match block.kind {
        BlockKind::Loop => out.append("loop"),
        BlockKind::IfElse => out.append("if_else"),
        BlockKind::FunctionEntry => out.append("entry"),
        BlockKind::Block => out.append("block"),
    }
}

/// Appends to `out` the note on where the branch `e` goes.
pub fn display_br(e: &Br, out: &mut String)
    ensures
        final(out)@ == old(out)@ + branch_note(e.block.0.index as nat),
{
    out.append(" (;");
    push_node_name(e.block, out);
    out.append(";)");
    assert(out@ =~= old(out)@ + branch_note(e.block.0.index as nat));
}

/// Appends to `out` the note on where the conditional branch `e` goes.
pub fn display_br_if(e: &BrIf, out: &mut String)
    ensures
        final(out)@ == old(out)@ + branch_note(e.block.0.index as nat),
{
    out.append(" (;");
    push_node_name(e.block, out);
    out.append(";)");
    assert(out@ =~= old(out)@ + branch_note(e.block.0.index as nat));
}

/// Appends to `out` the note on where the table branch `e` goes.
pub fn display_br_table(e: &BrTable, out: &mut String)
    ensures
        final(out)@ == old(out)@ + table_note(e.blocks@, e.default),
{
    out.append(" (;default:");
    push_node_name(e.default, out);
    out.append("  [");
    let ghost start = out@;
    let mut i: usize = 0;
    proof {
        assert(e.blocks@.take(0) =~= Seq::<BlockId>::empty());
    }
    while i < e.blocks.len()
        invariant
            i <= e.blocks.len(),
            out@ == start + node_names(e.blocks@.take(i as int)),
        decreases e.blocks.len() - i,
    {
        let ghost before = e.blocks@.take(i as int);
        let ghost taken = e.blocks@.take(i + 1);
        proof {
            assert(taken.drop_last() =~= before);
            assert(taken.last() == e.blocks@[i as int]);
        }
        if i > 0 {
            out.append(" ");
        }
        push_node_name(e.blocks[i], out);
        proof {
            assert(out@ =~= start + node_names(taken));
        }
        i = i + 1;
    }
    proof {
        assert(e.blocks@.take(i as int) =~= e.blocks@);
    }
    out.append("];)");
    assert(out@ =~= old(out)@ + table_note(e.blocks@, e.default));
}

/// Appends the name of the operator of `e` to `out`.
pub fn display_binop_name(e: &Binop, out: &mut String)
    ensures
        final(out)@ == old(out)@ + e.op.name(),
{
    out.append(e.op.as_str());
}

/// Appends the name of the operator of `e` to `out`, for the graph rendering.
pub fn dot_binop_name(e: &Binop, out: &mut String)
    ensures
        final(out)@ == old(out)@ + e.op.name(),
{
    out.append(e.op.as_str());
}

/// Appends the name of the operator of `e` to `out`.
pub fn display_unop_name(e: &Unop, out: &mut String)
    ensures
        final(out)@ == old(out)@ + e.op.name(),
{
    out.append(e.op.as_str());
}

/// Appends the name of the operator of `e` to `out`, for the graph rendering.
pub fn dot_unop_name(e: &Unop, out: &mut String)
    ensures
        final(out)@ == old(out)@ + e.op.name(),
{
    out.append(e.op.as_str());
}

} // verus!
