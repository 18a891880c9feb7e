use vstd::prelude::*;

use crate::chunk;
use crate::error::ExtractError;
use crate::extract::{
    extract_from_tree, lemma_walk_error_is_decode, lemma_walk_records_invariant, symbol_invariant,
    walk_spec,
};
use crate::lang::{detect_language, spec_detect_language, LanguageId};
use crate::symbol::{models, CodeSymbol, SymbolModel};
use crate::text::first_line_str;
use crate::tree::{node_wf, NameText, SyntaxNode};

verus! {

// ------------------------------------------------------------------
// The grammar collaborator. Its values are opaque: the library reads
// a parse tree through the accessors below and reduces it to its own
// SyntaxNode values, on which everything else is proved.
// ------------------------------------------------------------------

#[verifier::external_type_specification]
#[verifier::external_body]
pub struct ExLanguage(tree_sitter::Language);

#[verifier::external_type_specification]
#[verifier::external_body]
pub struct ExParser(tree_sitter::Parser);

#[verifier::external_type_specification]
#[verifier::external_body]
pub struct ExTree(tree_sitter::Tree);

#[verifier::external_type_specification]
#[verifier::external_body]
pub struct ExNode<'a>(tree_sitter::Node<'a>);

/// Relies on tree_sitter_rust::language: the Rust grammar handle.
#[verifier::external_body]
fn grammar_rust() -> tree_sitter::Language {
    tree_sitter_rust::language()
}

/// Relies on tree_sitter_javascript::language: the JavaScript grammar.
#[verifier::external_body]
fn grammar_javascript() -> tree_sitter::Language {
    tree_sitter_javascript::language()
}

/// Relies on tree_sitter_typescript::language_typescript.
#[verifier::external_body]
fn grammar_typescript() -> tree_sitter::Language {
    tree_sitter_typescript::language_typescript()
}

/// Relies on tree_sitter_typescript::language_tsx.
#[verifier::external_body]
fn grammar_tsx() -> tree_sitter::Language {
    tree_sitter_typescript::language_tsx()
}

/// Relies on tree_sitter_go::language: the Go grammar handle.
#[verifier::external_body]
fn grammar_go() -> tree_sitter::Language {
    tree_sitter_go::language()
}

/// Relies on tree_sitter_python::language: the Python grammar handle.
#[verifier::external_body]
fn grammar_python() -> tree_sitter::Language {
    tree_sitter_python::language()
}

/// Relies on tree_sitter_java::language: the Java grammar handle.
#[verifier::external_body]
fn grammar_java() -> tree_sitter::Language {
    tree_sitter_java::language()
}

/// Relies on tree_sitter_cpp::language: the C/C++ grammar handle.
#[verifier::external_body]
fn grammar_cpp() -> tree_sitter::Language {
    tree_sitter_cpp::language()
}

/// Relies on tree_sitter::Parser::new.
#[verifier::external_body]
fn parser_new() -> tree_sitter::Parser {
    tree_sitter::Parser::new()
}

/// Relies on tree_sitter::Parser::set_language: reports whether the
/// grammar was accepted (it is refused on an ABI version mismatch).
#[verifier::external_body]
fn parser_set_language(parser: &mut tree_sitter::Parser, language: &tree_sitter::Language) -> bool {
    parser.set_language(*language).is_ok()
}

/// Relies on tree_sitter::Parser::parse: a syntax tree for the source
/// text, or none when no grammar was set or parsing was cancelled.
#[verifier::external_body]
fn parser_parse(parser: &mut tree_sitter::Parser, source: &str) -> Option<tree_sitter::Tree> {
    parser.parse(source, None)
}

/// Relies on tree_sitter::Tree::root_node.
#[verifier::external_body]
fn tree_root_node<'t>(tree: &'t tree_sitter::Tree) -> tree_sitter::Node<'t> {
    tree.root_node()
}

/// Relies on tree_sitter::Node::kind: the grammar's tag for the node.
#[verifier::external_body]
fn ts_node_kind(node: &tree_sitter::Node) -> String {
    node.kind().to_string()
}

/// Relies on tree_sitter::Node::start_position: the node's 0-based
/// start row.
#[verifier::external_body]
fn ts_node_start_row(node: &tree_sitter::Node) -> usize {
    node.start_position().row
}

/// Relies on tree_sitter::Node::end_position: the node's 0-based end
/// row.
#[verifier::external_body]
fn ts_node_end_row(node: &tree_sitter::Node) -> usize {
    node.end_position().row
}

/// Relies on tree_sitter::Node::child_count.
#[verifier::external_body]
fn ts_node_child_count(node: &tree_sitter::Node) -> usize {
    node.child_count()
}

/// Relies on tree_sitter::Node::child: the i-th child, in source order.
#[verifier::external_body]
fn ts_node_child<'t>(node: &tree_sitter::Node<'t>, i: usize) -> Option<tree_sitter::Node<'t>> {
    node.child(i)
}

/// Relies on tree_sitter::Node::child_by_field_name: the child the
/// grammar designates under the field name, if any.
#[verifier::external_body]
fn ts_node_child_by_field<'t>(node: &tree_sitter::Node<'t>, field: &str) -> Option<
    tree_sitter::Node<'t>,
> {
    node.child_by_field_name(field)
}

/// Relies on tree_sitter::Node::{start_byte, end_byte} and
/// str::from_utf8: the text of the node's byte range, or none when that
/// range falls outside the source or does not decode as text.
#[verifier::external_body]
fn ts_node_text(node: &tree_sitter::Node, source: &str) -> Option<String> {
    let bytes = source.as_bytes().get(node.start_byte()..node.end_byte())?;
    match core::str::from_utf8(bytes) {
        Ok(t) => Some(t.to_string()),
        Err(_) => None,
    }
}

// ------------------------------------------------------------------
// Reducing a parse tree to the library's own values
// ------------------------------------------------------------------

/// Reads one parse-tree node and its subtree into a [`SyntaxNode`],
/// keeping exactly what the rule tables consume. Rows out of order or
/// too large for 1-based 32-bit line numbers are refused, so the result
/// is always well formed. `fuel` bounds the recursion depth; a tree
/// deeper than the budget is refused as unparseable.
fn build_node<'t>(ts: &tree_sitter::Node<'t>, source: &str, fuel: usize) -> (r: Result<
    SyntaxNode,
    ExtractError,
>)
    ensures
        r matches Ok(n) ==> node_wf(n),
        r is Err ==> r == Err::<SyntaxNode, ExtractError>(ExtractError::ParseFailure),
    decreases fuel,
{
    if fuel == 0 {
        return Err(ExtractError::ParseFailure);
    }
    let kind = ts_node_kind(ts);
    let start_row = ts_node_start_row(ts);
    let end_row = ts_node_end_row(ts);
    if start_row > end_row || end_row >= 0x7fff_ffff {
        return Err(ExtractError::ParseFailure);
    }
    let name = match ts_node_child_by_field(ts, "name") {
        None => NameText::Missing,
        Some(name_node) => match ts_node_text(&name_node, source) {
            None => NameText::Undecodable,
            Some(t) => NameText::Text(t),
        },
    };
    let head = match ts_node_text(ts, source) {
        None => None,
        Some(t) => Some(first_line_str(t.as_str())),
    };
    let count = ts_node_child_count(ts);
    let mut children: Vec<SyntaxNode> = Vec::new();
    let mut i: usize = 0;
    while i < count
        invariant
            fuel >= 1,
            forall|k: int| 0 <= k < children.len() ==> node_wf(#[trigger] children@[k]),
        decreases count - i,
    {
        match ts_node_child(ts, i) {
            Some(c) => {
                match build_node(&c, source, fuel - 1) {
                    Ok(b) => children.push(b),
                    Err(e) => {
                        return Err(e);
                    },
                }
            },
            None => {},
        }
        i = i + 1;
    }
    Ok(SyntaxNode { kind, start_row, end_row, name, head, children })
}

// ------------------------------------------------------------------
// The service
// ------------------------------------------------------------------

/// The language registry and extraction service: one grammar handle per
/// supported language, loaded once at construction and only read
/// afterwards.
pub struct ParserService {
    rust_grammar: tree_sitter::Language,
    javascript_grammar: tree_sitter::Language,
    typescript_grammar: tree_sitter::Language,
    tsx_grammar: tree_sitter::Language,
    go_grammar: tree_sitter::Language,
    python_grammar: tree_sitter::Language,
    java_grammar: tree_sitter::Language,
    cpp_grammar: tree_sitter::Language,
}

impl ParserService {
    /// Builds the registry with every supported grammar loaded.
    pub fn new() -> ParserService {
        ParserService {
            rust_grammar: grammar_rust(),
            javascript_grammar: grammar_javascript(),
            typescript_grammar: grammar_typescript(),
            tsx_grammar: grammar_tsx(),
            go_grammar: grammar_go(),
            python_grammar: grammar_python(),
            java_grammar: grammar_java(),
            cpp_grammar: grammar_cpp(),
        }
    }

    /// The grammar handle for a language; total, because the registry is
    /// built from the same enumeration the detector resolves to.
    fn grammar_for(&self, lang: LanguageId) -> &tree_sitter::Language {
        match lang {
            LanguageId::Rust => &self.rust_grammar,
            LanguageId::Javascript => &self.javascript_grammar,
            LanguageId::Typescript => &self.typescript_grammar,
            LanguageId::Tsx => &self.tsx_grammar,
            LanguageId::Go => &self.go_grammar,
            LanguageId::Python => &self.python_grammar,
            LanguageId::Java => &self.java_grammar,
            LanguageId::Cpp => &self.cpp_grammar,
        }
    }

    /// Parses `source` as the language `file_path`'s extension resolves
    /// to and extracts its symbols in pre-order. Fails with an
    /// unsupported-language error exactly when the extension resolves to
    /// no language; fails with a parse failure when the collaborator
    /// yields no tree; and for whatever tree came back, the records are
    /// exactly the pre-order extraction of that tree.
    pub fn extract_symbols(&self, file_path: &str, source: &str) -> (r: Result<
        Vec<CodeSymbol>,
        ExtractError,
    >)
        ensures
            r == Err::<Vec<CodeSymbol>, ExtractError>(ExtractError::UnsupportedLanguage)
                <==> spec_detect_language(file_path@) is None,
            r matches Ok(symbols) ==> exists|t: SyntaxNode|
                node_wf(t) && walk_spec(
                    spec_detect_language(file_path@)->Some_0,
                    t,
                    file_path@,
                ) == Ok::<Seq<SymbolModel>, ExtractError>(models(symbols@)),
            r matches Ok(symbols) ==> forall|j: int|
                0 <= j < symbols@.len() ==> symbol_invariant(#[trigger] symbols@[j]@, file_path@),
    {
        let lang = match detect_language(file_path) {
            Some(l) => l,
            None => {
                return Err(ExtractError::UnsupportedLanguage);
            },
        };
        let grammar = self.grammar_for(lang);
        let mut parser = parser_new();
        if !parser_set_language(&mut parser, grammar) {
            return Err(ExtractError::ParseFailure);
        }
        let tree = match parser_parse(&mut parser, source) {
            Some(t) => t,
            None => {
                return Err(ExtractError::ParseFailure);
            },
        };
        let root = tree_root_node(&tree);
        // a parse tree is never deeper than its source has bytes
        let len = source.len();
        let budget: usize = if len < 0x7fff_ffff {
            len + 2
        } else {
            0x7fff_ffff
        };
        let syntax = match build_node(&root, source, budget) {
            Ok(s) => s,
            Err(e) => {
                return Err(e);
            },
        };
        let result = extract_from_tree(lang, &syntax, file_path);
        proof {
            lemma_walk_error_is_decode(lang, syntax, file_path@);
            if result is Ok {
                lemma_walk_records_invariant(lang, syntax, file_path@);
                assert forall|j: int| 0 <= j < result->Ok_0@.len() implies symbol_invariant(
                    #[trigger] result->Ok_0@[j]@,
                    file_path@,
                ) by {
                    assert(models(result->Ok_0@)[j] == result->Ok_0@[j]@);
                }
                assert(exists|t: SyntaxNode|
                    node_wf(t) && walk_spec(lang, t, file_path@) == Ok::<
                        Seq<SymbolModel>,
                        ExtractError,
                    >(models(result->Ok_0@))) by {
                    assert(node_wf(syntax) && walk_spec(lang, syntax, file_path@) == Ok::<
                        Seq<SymbolModel>,
                        ExtractError,
                    >(models(result->Ok_0@)));
                }
            }
        }
        result
    }

    /// Dependency extraction is not yet implemented: every request
    /// succeeds with an empty sequence, which callers must read as "not
    /// computed", not as "no dependencies found".
    pub fn extract_dependencies(&self, file_path: &str) -> (r: Result<
        Vec<CodeSymbol>,
        ExtractError,
    >)
        ensures
            r is Ok,
            r->Ok_0@.len() == 0,
    {
        let _ = file_path;
        Ok(Vec::new())
    }

    /// Hashes a contiguous line range of `source`; see
    /// [`chunk::chunk_hash_spec`] for the exact contract.
    pub fn get_chunk_hash(&self, source: &str, start_line: Option<i32>, end_line: Option<i32>) -> (r:
        Result<String, ExtractError>)
        requires
            source@.len() < 0x8000_0000,
        ensures
            match chunk::chunk_hash_spec(source@, start_line, end_line) {
                Ok(h) => r is Ok && r->Ok_0@ == h,
                Err(e) => r == Err::<String, ExtractError>(e),
            },
    {
        chunk::get_chunk_hash(source, start_line, end_line)
    }
}

} // verus!
