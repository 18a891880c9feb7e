use vstd::prelude::*;

verus! {

/// The text of a node's `name` field: the field may be absent, its byte
/// range may fail to decode as text, or it decodes to an identifier.
pub enum NameText {
    Missing,
    Undecodable,
    Text(String),
}

/// One node of a concrete syntax tree, reduced to the plain values the
/// extraction rules read: the grammar's kind tag, 0-based start and end
/// rows, the text of the `name` field, the first source line of the
/// node's byte range (`None` when that range does not decode), and the
/// ordered children.
pub struct SyntaxNode {
    pub kind: String,
    pub start_row: usize,
    pub end_row: usize,
    pub name: NameText,
    pub head: Option<String>,
    pub children: Vec<SyntaxNode>,
}

/// Well-formedness of a syntax tree: rows are ordered and small enough
/// that 1-based line numbers fit in `i32`, at every node.
pub open spec fn node_wf(n: SyntaxNode) -> bool
    decreases n,
{
    &&& n.start_row <= n.end_row
    &&& n.end_row < 0x7fff_ffff
    &&& forall|i: int| 0 <= i < n.children.len() ==> node_wf(#[trigger] n.children[i])
}

} // verus!
