use vstd::prelude::*;

use crate::text::{dec_seq, push_char, u64_to_dec};

verus! {

/// One extracted declaration: an immutable value record, created fresh
/// per request.
#[derive(Debug, Clone)]
pub struct CodeSymbol {
    /// Synthesized from the file path, the symbol name and the 0-based
    /// start row; not guaranteed unique when two same-named symbols
    /// start on the same row of the same file.
    pub id: String,
    /// The identifier text as written in source.
    pub symbol_name: String,
    /// Language-specific vocabulary, e.g. "function", "class", "struct".
    pub symbol_type: String,
    /// The path the extraction request named.
    pub file_path: String,
    /// 1-based, inclusive.
    pub line_start: i32,
    /// 1-based, inclusive.
    pub line_end: i32,
    /// Best-effort single-line snippet; absent when extraction failed
    /// non-fatally.
    pub signature: Option<String>,
    /// Reserved for cross-symbol reference data; always empty.
    pub dependencies: Vec<String>,
    /// Language-specific visibility heuristic.
    pub exported: bool,
    /// Optional human-readable visibility, populated only by some
    /// languages.
    pub visibility: Option<String>,
}

/// The mathematical value of a [`CodeSymbol`].
#[verifier::ext_equal]
pub ghost struct SymbolModel {
    pub id: Seq<char>,
    pub symbol_name: Seq<char>,
    pub symbol_type: Seq<char>,
    pub file_path: Seq<char>,
    pub line_start: int,
    pub line_end: int,
    pub signature: Option<Seq<char>>,
    pub dependencies: Seq<Seq<char>>,
    pub exported: bool,
    pub visibility: Option<Seq<char>>,
}

impl View for CodeSymbol {
    type V = SymbolModel;

    open spec fn view(&self) -> SymbolModel {
        SymbolModel {
            id: self.id@,
            symbol_name: self.symbol_name@,
            symbol_type: self.symbol_type@,
            file_path: self.file_path@,
            line_start: self.line_start as int,
            line_end: self.line_end as int,
            signature: self.signature.deep_view(),
            dependencies: self.dependencies.deep_view(),
            exported: self.exported,
            visibility: self.visibility.deep_view(),
        }
    }
}

/// The models of a sequence of symbols, in order.
pub open spec fn models(symbols: Seq<CodeSymbol>) -> Seq<SymbolModel> {
    symbols.map_values(|s: CodeSymbol| s@)
}

/// The synthesized symbol id: the file path, the symbol name and the
/// decimal 0-based start row, joined with underscores.
pub open spec fn symbol_id(path: Seq<char>, name: Seq<char>, row: int) -> Seq<char> {
    path + seq!['_'] + name + seq!['_'] + dec_seq(row)
}

/// Builds a symbol id, exactly [`symbol_id`].
pub fn make_symbol_id(file_path: &str, name: &str, row: usize) -> (r: String)
    ensures
        r@ == symbol_id(file_path@, name@, row as int),
{
    let mut s = file_path.to_owned();
    push_char(&mut s, '_');
    s.append(name);
    push_char(&mut s, '_');
    let dec = u64_to_dec(row as u64);
    s.append(dec.as_str());
    proof {
        assert(s@ =~= symbol_id(file_path@, name@, row as int));
    }
    s
}

/// Two distinctly named symbols of one file get distinct ids even when
/// they start on the same row; only same-named symbols on the same row
/// of the same file can collide.
pub proof fn lemma_distinct_names_distinct_ids(
    path: Seq<char>,
    name1: Seq<char>,
    name2: Seq<char>,
    row: int,
)
    requires
        name1 != name2,
    ensures
        symbol_id(path, name1, row) != symbol_id(path, name2, row),
{
    let id1 = symbol_id(path, name1, row);
    let id2 = symbol_id(path, name2, row);
    if id1 == id2 {
        assert(id1.len() == path.len() + 1 + name1.len() + 1 + dec_seq(row).len());
        assert(id2.len() == path.len() + 1 + name2.len() + 1 + dec_seq(row).len());
        assert(name1.len() == name2.len());
        assert forall|k: int| 0 <= k < name1.len() implies name1[k] == name2[k] by {
            assert(id1[path.len() + 1 + k] == name1[k]);
            assert(id2[path.len() + 1 + k] == name2[k]);
        }
        assert(name1 =~= name2);
    }
}

/// Optional 1-based line bounds of an extraction request; only the
/// chunk-hash service consults them.
#[derive(Debug, Clone)]
pub struct ExtractRequest {
    pub start_line: Option<i32>,
    pub end_line: Option<i32>,
}

/// The outcome of a symbol- or dependency-extraction request.
#[derive(Debug, Clone)]
pub struct ExtractResponse {
    pub symbols: Vec<CodeSymbol>,
    pub success: bool,
}

} // verus!
