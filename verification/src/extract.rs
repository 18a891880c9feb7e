use vstd::prelude::*;

use crate::error::ExtractError;
use crate::lang::LanguageId;
use crate::symbol::{make_symbol_id, models, CodeSymbol, SymbolModel, symbol_id};
use crate::text::{char_uppercase, str_eq, trim_str, trimmed};
use crate::tree::{node_wf, NameText, SyntaxNode};

verus! {

// ------------------------------------------------------------------
// The per-language rule tables
// ------------------------------------------------------------------

/// The symbol type a node kind maps to, or none when nodes of that kind
/// produce no symbol. Each language has its own fixed table.
pub open spec fn kind_symbol_type(lang: LanguageId, kind: Seq<char>) -> Option<Seq<char>> {
    match lang {
        LanguageId::Rust => if kind == "function_item"@ {
            Some("function"@)
        } else if kind == "impl_item"@ {
            Some("impl"@)
        } else if kind == "struct_item"@ {
            Some("struct"@)
        } else if kind == "enum_item"@ {
            Some("enum"@)
        } else if kind == "trait_item"@ {
            Some("trait"@)
        } else if kind == "type_item"@ {
            Some("type"@)
        } else if kind == "const_item"@ {
            Some("const"@)
        } else if kind == "static_item"@ {
            Some("static"@)
        } else {
            None
        },
        LanguageId::Javascript | LanguageId::Typescript | LanguageId::Tsx => if kind
            == "function_declaration"@ || kind == "function"@ {
            Some("function"@)
        } else if kind == "method_definition"@ {
            Some("method"@)
        } else if kind == "class_declaration"@ {
            Some("class"@)
        } else if kind == "variable_declaration"@ {
            Some("variable"@)
        } else {
            None
        },
        LanguageId::Go => if kind == "function_declaration"@ {
            Some("function"@)
        } else if kind == "method_declaration"@ {
            Some("method"@)
        } else if kind == "type_declaration"@ {
            Some("type"@)
        } else {
            None
        },
        LanguageId::Python => if kind == "function_definition"@ {
            Some("function"@)
        } else if kind == "class_definition"@ {
            Some("class"@)
        } else {
            None
        },
        LanguageId::Java => if kind == "class_declaration"@ {
            Some("class"@)
        } else if kind == "interface_declaration"@ {
            Some("interface"@)
        } else if kind == "method_declaration"@ {
            Some("method"@)
        } else {
            None
        },
        LanguageId::Cpp => if kind == "function_definition"@ {
            Some("function"@)
        } else if kind == "class_specifier"@ {
            Some("class"@)
        } else if kind == "namespace_definition"@ {
            Some("namespace"@)
        } else {
            None
        },
    }
}

/// Whether a failed signature extraction aborts the request for this
/// language. The asymmetry across languages is deliberate and kept as a
/// per-language flag rather than unified.
pub open spec fn signature_fatal(lang: LanguageId) -> bool {
    lang is Python || lang is Cpp
}

/// The export heuristic: Rust looks for a leading visibility modifier,
/// Go for an uppercase first letter of the name, Java treats every
/// declaration as exported, the rest report not exported.
pub open spec fn exported_of(lang: LanguageId, n: SyntaxNode, name: Seq<char>) -> bool {
    match lang {
        LanguageId::Rust => n.children.len() > 0 && n.children[0].kind@ == "visibility_modifier"@,
        LanguageId::Go => name.len() > 0 && char_uppercase(name[0]),
        LanguageId::Java => true,
        _ => false,
    }
}

/// The human-readable visibility: only Rust and Java populate it.
pub open spec fn visibility_of(lang: LanguageId, n: SyntaxNode, name: Seq<char>) -> Option<
    Seq<char>,
> {
    match lang {
        LanguageId::Rust => if exported_of(lang, n, name) {
            Some("public"@)
        } else {
            Some("private"@)
        },
        LanguageId::Java => Some("public"@),
        _ => None,
    }
}

/// The signature of a node: the first line of its source text, trimmed;
/// none when the node's byte range did not decode.
pub open spec fn spec_signature(n: SyntaxNode) -> Option<Seq<char>> {
    match n.head {
        Some(h) => Some(trimmed(h@)),
        None => None,
    }
}

/// The symbols the node itself yields, children aside: none when its
/// kind is not in the table or it has no name field; a decode failure of
/// the name, or of the signature in a fail-fast language, aborts.
pub open spec fn node_symbols(lang: LanguageId, n: SyntaxNode, path: Seq<char>) -> Result<
    Seq<SymbolModel>,
    ExtractError,
> {
    match kind_symbol_type(lang, n.kind@) {
        None => Ok(Seq::empty()),
        Some(ty) => match n.name {
            NameText::Missing => Ok(Seq::empty()),
            NameText::Undecodable => Err(ExtractError::TextDecodeFailure),
            NameText::Text(name) => if signature_fatal(lang) && n.head is None {
                Err(ExtractError::TextDecodeFailure)
            } else {
                Ok(
                    seq![
                        (SymbolModel {
                            id: symbol_id(path, name@, n.start_row as int),
                            symbol_name: name@,
                            symbol_type: ty,
                            file_path: path,
                            line_start: n.start_row + 1,
                            line_end: n.end_row + 1,
                            signature: spec_signature(n),
                            dependencies: Seq::empty(),
                            exported: exported_of(lang, n, name@),
                            visibility: visibility_of(lang, n, name@),
                        }),
                    ],
                )
            },
        },
    }
}

/// The full pre-order extraction: the node's own symbols, then those of
/// each child subtree in order. The walk never prunes: children are
/// visited whether or not the node produced a symbol. The first decode
/// failure aborts the whole walk.
pub open spec fn walk_spec(lang: LanguageId, n: SyntaxNode, path: Seq<char>) -> Result<
    Seq<SymbolModel>,
    ExtractError,
>
    decreases n, n.children.len() + 1,
{
    match node_symbols(lang, n, path) {
        Err(e) => Err(e),
        Ok(own) => match walk_children_spec(lang, n, 0, path) {
            Err(e) => Err(e),
            Ok(rest) => Ok(own + rest),
        },
    }
}

/// The symbols of the subtrees rooted at `n.children[from..]`, in order.
pub open spec fn walk_children_spec(lang: LanguageId, n: SyntaxNode, from: int, path: Seq<char>) -> Result<
    Seq<SymbolModel>,
    ExtractError,
>
    decreases n, n.children.len() - from,
{
    if from < 0 || from >= n.children.len() {
        Ok(Seq::empty())
    } else {
        match walk_spec(lang, n.children[from], path) {
            Err(e) => Err(e),
            Ok(s) => match walk_children_spec(lang, n, from + 1, path) {
                Err(e) => Err(e),
                Ok(rest) => Ok(s + rest),
            },
        }
    }
}

// ------------------------------------------------------------------
// The executable engine
// ------------------------------------------------------------------

/// The signature of a node: the first line of the node's source text,
/// trimmed of surrounding whitespace. Fails exactly when the node's
/// byte range did not decode as text.
pub fn extract_signature(node: &SyntaxNode) -> (r: Result<String, ExtractError>)
    ensures
        match spec_signature(*node) {
            Some(s) => r is Ok && r.unwrap()@ == s,
            None => r == Err::<String, ExtractError>(ExtractError::TextDecodeFailure),
        },
{
    match &node.head {
        Some(h) => Ok(trim_str(h.as_str())),
        None => Err(ExtractError::TextDecodeFailure),
    }
}

/// The runtime rule table, exactly [`kind_symbol_type`].
fn kind_type(lang: LanguageId, kind: &String) -> (r: Option<&'static str>)
    ensures
        r is Some <==> kind_symbol_type(lang, kind@) is Some,
        r is Some ==> kind_symbol_type(lang, kind@) == Some(r.unwrap()@),
{
    let k = kind.as_str();
    match lang {
        LanguageId::Rust => if str_eq(k, "function_item") {
            Some("function")
        } else if str_eq(k, "impl_item") {
            Some("impl")
        } else if str_eq(k, "struct_item") {
            Some("struct")
        } else if str_eq(k, "enum_item") {
            Some("enum")
        } else if str_eq(k, "trait_item") {
            Some("trait")
        } else if str_eq(k, "type_item") {
            Some("type")
        } else if str_eq(k, "const_item") {
            Some("const")
        } else if str_eq(k, "static_item") {
            Some("static")
        } else {
            None
        },
        LanguageId::Javascript | LanguageId::Typescript | LanguageId::Tsx => if str_eq(
            k,
            "function_declaration",
        ) || str_eq(k, "function") {
            Some("function")
        } else if str_eq(k, "method_definition") {
            Some("method")
        } else if str_eq(k, "class_declaration") {
            Some("class")
        } else if str_eq(k, "variable_declaration") {
            Some("variable")
        } else {
            None
        },
        LanguageId::Go => if str_eq(k, "function_declaration") {
            Some("function")
        } else if str_eq(k, "method_declaration") {
            Some("method")
        } else if str_eq(k, "type_declaration") {
            Some("type")
        } else {
            None
        },
        LanguageId::Python => if str_eq(k, "function_definition") {
            Some("function")
        } else if str_eq(k, "class_definition") {
            Some("class")
        } else {
            None
        },
        LanguageId::Java => if str_eq(k, "class_declaration") {
            Some("class")
        } else if str_eq(k, "interface_declaration") {
            Some("interface")
        } else if str_eq(k, "method_declaration") {
            Some("method")
        } else {
            None
        },
        LanguageId::Cpp => if str_eq(k, "function_definition") {
            Some("function")
        } else if str_eq(k, "class_specifier") {
            Some("class")
        } else if str_eq(k, "namespace_definition") {
            Some("namespace")
        } else {
            None
        },
    }
}

/// Builds the canonical symbol record for a matched node and appends it.
fn push_symbol(
    node: &SyntaxNode,
    file_path: &str,
    name: &String,
    ty: &'static str,
    signature: Option<String>,
    exported: bool,
    visibility: Option<String>,
    symbols: &mut Vec<CodeSymbol>,
)
    requires
        node.start_row <= node.end_row,
        node.end_row < 0x7fff_ffff,
    ensures
        models(final(symbols)@) == models(old(symbols)@).push(
            (SymbolModel {
                id: symbol_id(file_path@, name@, node.start_row as int),
                symbol_name: name@,
                symbol_type: ty@,
                file_path: file_path@,
                line_start: node.start_row + 1,
                line_end: node.end_row + 1,
                signature: signature.deep_view(),
                dependencies: Seq::empty(),
                exported: exported,
                visibility: visibility.deep_view(),
            }),
        ),
{
    let id = make_symbol_id(file_path, name.as_str(), node.start_row);
    let deps: Vec<String> = Vec::new();
    let cs = CodeSymbol {
        id,
        symbol_name: name.clone(),
        symbol_type: ty.to_owned(),
        file_path: file_path.to_owned(),
        line_start: (node.start_row + 1) as i32,
        line_end: (node.end_row + 1) as i32,
        signature,
        dependencies: deps,
        exported,
        visibility,
    };
    let ghost m = cs@;
    symbols.push(cs);
    proof {
        assert(m.dependencies =~= Seq::<Seq<char>>::empty());
        assert(m =~~= (SymbolModel {
            id: symbol_id(file_path@, name@, node.start_row as int),
            symbol_name: name@,
            symbol_type: ty@,
            file_path: file_path@,
            line_start: node.start_row + 1,
            line_end: node.end_row + 1,
            signature: signature.deep_view(),
            dependencies: Seq::empty(),
            exported: exported,
            visibility: visibility.deep_view(),
        }));
        assert(models(symbols@) =~= models(old(symbols)@).push(m));
    }
}

/// Extracts the symbol of one Rust node, if its kind is in the Rust
/// table: a declaration is exported exactly when its first child is a
/// visibility modifier; a signature failure is non-fatal.
pub fn extract_rust_symbols(
    node: &SyntaxNode,
    file_path: &str,
    symbols: &mut Vec<CodeSymbol>,
) -> (r: Result<(), ExtractError>)
    requires
        node.start_row <= node.end_row,
        node.end_row < 0x7fff_ffff,
    ensures
        match node_symbols(LanguageId::Rust, *node, file_path@) {
            Ok(s) => r is Ok && models(final(symbols)@) == models(old(symbols)@) + s,
            Err(e) => r == Err::<(), ExtractError>(e) && *final(symbols) == *old(symbols),
        },
{
    let ty = match kind_type(LanguageId::Rust, &node.kind) {
        None => {
            proof {
                assert(models(symbols@) =~= models(old(symbols)@) + Seq::<
                    SymbolModel,
                >::empty());
            }
            return Ok(());
        },
        Some(t) => t,
    };
    let name = match &node.name {
        NameText::Missing => {
            proof {
                assert(models(symbols@) =~= models(old(symbols)@) + Seq::<
                    SymbolModel,
                >::empty());
            }
            return Ok(());
        },
        NameText::Undecodable => {
            return Err(ExtractError::TextDecodeFailure);
        },
        NameText::Text(nm) => nm,
    };
    let exported = node.children.len() > 0 && str_eq(
        node.children[0].kind.as_str(),
        "visibility_modifier",
    );
    let visibility: Option<String> = if exported {
        Some("public".to_owned())
    } else {
        Some("private".to_owned())
    };
    let signature = match extract_signature(node) {
        Ok(s) => Some(s),
        Err(_) => None,
    };
    push_symbol(node, file_path, name, ty, signature, exported, visibility, symbols);
    proof {
        lemma_push_one(models(old(symbols)@), models(symbols@));
    }
    Ok(())
}

/// Appending one element is the same as concatenating a one-element
/// sequence.
proof fn lemma_push_one(base: Seq<SymbolModel>, grown: Seq<SymbolModel>)
    requires
        grown.len() == base.len() + 1,
        grown == base.push(grown.last()),
    ensures
        grown == base + seq![grown.last()],
{
    assert(grown =~= base + seq![grown.last()]);
}

/// Extracts the symbol of one JavaScript-family node (JavaScript,
/// TypeScript or TSX share the table): nothing is ever reported exported
/// and no visibility is populated; a signature failure is non-fatal.
pub fn extract_js_symbols(
    lang: LanguageId,
    node: &SyntaxNode,
    file_path: &str,
    symbols: &mut Vec<CodeSymbol>,
) -> (r: Result<(), ExtractError>)
    requires
        lang is Javascript || lang is Typescript || lang is Tsx,
        node.start_row <= node.end_row,
        node.end_row < 0x7fff_ffff,
    ensures
        match node_symbols(lang, *node, file_path@) {
            Ok(s) => r is Ok && models(final(symbols)@) == models(old(symbols)@) + s,
            Err(e) => r == Err::<(), ExtractError>(e) && *final(symbols) == *old(symbols),
        },
{
    let ty = match kind_type(lang, &node.kind) {
        None => {
            proof {
                assert(models(symbols@) =~= models(old(symbols)@) + Seq::<SymbolModel>::empty());
            }
            return Ok(());
        },
        Some(t) => t,
    };
    let name = match &node.name {
        NameText::Missing => {
            proof {
                assert(models(symbols@) =~= models(old(symbols)@) + Seq::<SymbolModel>::empty());
            }
            return Ok(());
        },
        NameText::Undecodable => {
            return Err(ExtractError::TextDecodeFailure);
        },
        NameText::Text(nm) => nm,
    };
    let signature = match extract_signature(node) {
        Ok(s) => Some(s),
        Err(_) => None,
    };
    push_symbol(node, file_path, name, ty, signature, false, None, symbols);
    proof {
        lemma_push_one(models(old(symbols)@), models(symbols@));
    }
    Ok(())
}

/// Extracts the symbol of one Go node: a declaration is exported exactly
/// when the first character of its name is uppercase, the Go convention;
/// a signature failure is non-fatal.
pub fn extract_go_symbols(
    node: &SyntaxNode,
    file_path: &str,
    symbols: &mut Vec<CodeSymbol>,
) -> (r: Result<(), ExtractError>)
    requires
        node.start_row <= node.end_row,
        node.end_row < 0x7fff_ffff,
    ensures
        match node_symbols(LanguageId::Go, *node, file_path@) {
            Ok(s) => r is Ok && models(final(symbols)@) == models(old(symbols)@) + s,
            Err(e) => r == Err::<(), ExtractError>(e) && *final(symbols) == *old(symbols),
        },
{
    let ty = match kind_type(LanguageId::Go, &node.kind) {
        None => {
            proof {
                assert(models(symbols@) =~= models(old(symbols)@) + Seq::<SymbolModel>::empty());
            }
            return Ok(());
        },
        Some(t) => t,
    };
    let name = match &node.name {
        NameText::Missing => {
            proof {
                assert(models(symbols@) =~= models(old(symbols)@) + Seq::<SymbolModel>::empty());
            }
            return Ok(());
        },
        NameText::Undecodable => {
            return Err(ExtractError::TextDecodeFailure);
        },
        NameText::Text(nm) => nm,
    };
    let ns = name.as_str();
    let exported = if ns.unicode_len() > 0 {
        ns.get_char(0).is_uppercase()
    } else {
        false
    };
    let signature = match extract_signature(node) {
        Ok(s) => Some(s),
        Err(_) => None,
    };
    push_symbol(node, file_path, name, ty, signature, exported, None, symbols);
    proof {
        lemma_push_one(models(old(symbols)@), models(symbols@));
    }
    Ok(())
}

/// Extracts the symbol of one Python node: never exported, no
/// visibility; a signature failure aborts the request.
pub fn extract_python_symbols(
    node: &SyntaxNode,
    file_path: &str,
    symbols: &mut Vec<CodeSymbol>,
) -> (r: Result<(), ExtractError>)
    requires
        node.start_row <= node.end_row,
        node.end_row < 0x7fff_ffff,
    ensures
        match node_symbols(LanguageId::Python, *node, file_path@) {
            Ok(s) => r is Ok && models(final(symbols)@) == models(old(symbols)@) + s,
            Err(e) => r == Err::<(), ExtractError>(e) && *final(symbols) == *old(symbols),
        },
{
    let ty = match kind_type(LanguageId::Python, &node.kind) {
        None => {
            proof {
                assert(models(symbols@) =~= models(old(symbols)@) + Seq::<SymbolModel>::empty());
            }
            return Ok(());
        },
        Some(t) => t,
    };
    let name = match &node.name {
        NameText::Missing => {
            proof {
                assert(models(symbols@) =~= models(old(symbols)@) + Seq::<SymbolModel>::empty());
            }
            return Ok(());
        },
        NameText::Undecodable => {
            return Err(ExtractError::TextDecodeFailure);
        },
        NameText::Text(nm) => nm,
    };
    let signature = match extract_signature(node) {
        Ok(s) => Some(s),
        Err(e) => {
            return Err(e);
        },
    };
    push_symbol(node, file_path, name, ty, signature, false, None, symbols);
    proof {
        lemma_push_one(models(old(symbols)@), models(symbols@));
    }
    Ok(())
}

/// Extracts the symbol of one Java node: every declaration is treated as
/// exported and public, a simplifying assumption; a signature failure is
/// non-fatal.
pub fn extract_java_symbols(
    node: &SyntaxNode,
    file_path: &str,
    symbols: &mut Vec<CodeSymbol>,
) -> (r: Result<(), ExtractError>)
    requires
        node.start_row <= node.end_row,
        node.end_row < 0x7fff_ffff,
    ensures
        match node_symbols(LanguageId::Java, *node, file_path@) {
            Ok(s) => r is Ok && models(final(symbols)@) == models(old(symbols)@) + s,
            Err(e) => r == Err::<(), ExtractError>(e) && *final(symbols) == *old(symbols),
        },
{
    let ty = match kind_type(LanguageId::Java, &node.kind) {
        None => {
            proof {
                assert(models(symbols@) =~= models(old(symbols)@) + Seq::<SymbolModel>::empty());
            }
            return Ok(());
        },
        Some(t) => t,
    };
    let name = match &node.name {
        NameText::Missing => {
            proof {
                assert(models(symbols@) =~= models(old(symbols)@) + Seq::<SymbolModel>::empty());
            }
            return Ok(());
        },
        NameText::Undecodable => {
            return Err(ExtractError::TextDecodeFailure);
        },
        NameText::Text(nm) => nm,
    };
    let signature = match extract_signature(node) {
        Ok(s) => Some(s),
        Err(_) => None,
    };
    push_symbol(
        node,
        file_path,
        name,
        ty,
        signature,
        true,
        Some("public".to_owned()),
        symbols,
    );
    proof {
        lemma_push_one(models(old(symbols)@), models(symbols@));
    }
    Ok(())
}

/// Extracts the symbol of one C or C++ node: never exported, no
/// visibility; a signature failure aborts the request.
pub fn extract_cpp_symbols(
    node: &SyntaxNode,
    file_path: &str,
    symbols: &mut Vec<CodeSymbol>,
) -> (r: Result<(), ExtractError>)
    requires
        node.start_row <= node.end_row,
        node.end_row < 0x7fff_ffff,
    ensures
        match node_symbols(LanguageId::Cpp, *node, file_path@) {
            Ok(s) => r is Ok && models(final(symbols)@) == models(old(symbols)@) + s,
            Err(e) => r == Err::<(), ExtractError>(e) && *final(symbols) == *old(symbols),
        },
{
    let ty = match kind_type(LanguageId::Cpp, &node.kind) {
        None => {
            proof {
                assert(models(symbols@) =~= models(old(symbols)@) + Seq::<SymbolModel>::empty());
            }
            return Ok(());
        },
        Some(t) => t,
    };
    let name = match &node.name {
        NameText::Missing => {
            proof {
                assert(models(symbols@) =~= models(old(symbols)@) + Seq::<SymbolModel>::empty());
            }
            return Ok(());
        },
        NameText::Undecodable => {
            return Err(ExtractError::TextDecodeFailure);
        },
        NameText::Text(nm) => nm,
    };
    let signature = match extract_signature(node) {
        Ok(s) => Some(s),
        Err(e) => {
            return Err(e);
        },
    };
    push_symbol(node, file_path, name, ty, signature, false, None, symbols);
    proof {
        lemma_push_one(models(old(symbols)@), models(symbols@));
    }
    Ok(())
}

/// The pre-order walk: dispatches the node to the active language's
/// ruleset, appends its symbols, then recurses into every child whether
/// or not the node matched. The appended records are exactly
/// [`walk_spec`] of the node; the first failure aborts the walk.
pub fn walk_tree(
    lang: LanguageId,
    node: &SyntaxNode,
    file_path: &str,
    symbols: &mut Vec<CodeSymbol>,
) -> (r: Result<(), ExtractError>)
    requires
        node_wf(*node),
    ensures
        match walk_spec(lang, *node, file_path@) {
            Ok(s) => r is Ok && models(final(symbols)@) == models(old(symbols)@) + s,
            Err(e) => r == Err::<(), ExtractError>(e),
        },
    decreases *node,
{
    let own_result = match lang {
        LanguageId::Rust => extract_rust_symbols(node, file_path, symbols),
        LanguageId::Javascript | LanguageId::Typescript | LanguageId::Tsx => extract_js_symbols(
            lang,
            node,
            file_path,
            symbols,
        ),
        LanguageId::Go => extract_go_symbols(node, file_path, symbols),
        LanguageId::Python => extract_python_symbols(node, file_path, symbols),
        LanguageId::Java => extract_java_symbols(node, file_path, symbols),
        LanguageId::Cpp => extract_cpp_symbols(node, file_path, symbols),
    };
    if let Err(e) = own_result {
        return Err(e);
    }
    let ghost path = file_path@;
    let ghost own = node_symbols(lang, *node, path)->Ok_0;
    let ghost base = models(old(symbols)@);
    let ghost bound = base.len() + own.len();
    proof {
        assert(models(symbols@).take(bound as int) =~= base + own);
        assert(models(symbols@).skip(bound as int) =~= Seq::<SymbolModel>::empty());
        match walk_children_spec(lang, *node, 0, path) {
            Ok(rest) => {
                assert(models(symbols@).skip(bound as int) + rest =~= rest);
            },
            Err(_) => {},
        }
    }
    let n = node.children.len();
    let mut i: usize = 0;
    while i < n
        invariant
            node_wf(*node),
            0 <= i <= n,
            n == node.children.len(),
            path == file_path@,
            base == models(old(symbols)@),
            bound == base.len() + own.len(),
            node_symbols(lang, *node, path) == Ok::<Seq<SymbolModel>, ExtractError>(own),
            models(symbols@).len() >= bound,
            models(symbols@).take(bound as int) == base + own,
            match walk_children_spec(lang, *node, i as int, path) {
                Ok(rest) => walk_children_spec(lang, *node, 0, path) == Ok::<
                    Seq<SymbolModel>,
                    ExtractError,
                >(models(symbols@).skip(bound as int) + rest),
                Err(e) => walk_children_spec(lang, *node, 0, path) == Err::<
                    Seq<SymbolModel>,
                    ExtractError,
                >(e),
            },
        decreases n - i,
    {
        let ghost pre = models(symbols@);
        let child_result = walk_tree(lang, &node.children[i], file_path, symbols);
        match child_result {
            Err(e) => {
                proof {
                    assert(walk_children_spec(lang, *node, i as int, path) == Err::<
                        Seq<SymbolModel>,
                        ExtractError,
                    >(e));
                }
                return Err(e);
            },
            Ok(()) => {},
        }
        proof {
            let cs = walk_spec(lang, node.children@[i as int], path)->Ok_0;
            assert(models(symbols@) == pre + cs);
            assert(models(symbols@).take(bound as int) =~= pre.take(bound as int));
            assert(models(symbols@).skip(bound as int) =~= pre.skip(bound as int) + cs);
            match walk_children_spec(lang, *node, i + 1, path) {
                Ok(rest) => {
                    assert(walk_children_spec(lang, *node, i as int, path) == Ok::<
                        Seq<SymbolModel>,
                        ExtractError,
                    >(cs + rest));
                    assert(pre.skip(bound as int) + (cs + rest) =~= (pre.skip(bound as int) + cs)
                        + rest);
                },
                Err(_) => {},
            }
        }
        i = i + 1;
    }
    proof {
        let delta = models(symbols@).skip(bound as int);
        assert(walk_children_spec(lang, *node, n as int, path) == Ok::<
            Seq<SymbolModel>,
            ExtractError,
        >(Seq::<SymbolModel>::empty()));
        assert(delta + Seq::<SymbolModel>::empty() =~= delta);
        assert(models(symbols@) =~= models(symbols@).take(bound as int) + models(symbols@).skip(
            bound as int,
        ));
        assert(base + own + delta =~= base + (own + delta));
    }
    Ok(())
}

/// Extracts every symbol of the tree in pre-order: exactly the records
/// [`walk_spec`] describes, or the walk's first failure.
pub fn extract_from_tree(lang: LanguageId, root: &SyntaxNode, file_path: &str) -> (r: Result<
    Vec<CodeSymbol>,
    ExtractError,
>)
    requires
        node_wf(*root),
    ensures
        match walk_spec(lang, *root, file_path@) {
            Ok(s) => r is Ok && models(r->Ok_0@) == s,
            Err(e) => r == Err::<Vec<CodeSymbol>, ExtractError>(e),
        },
{
    let mut symbols: Vec<CodeSymbol> = Vec::new();
    proof {
        assert(models(symbols@) =~= Seq::<SymbolModel>::empty());
    }
    match walk_tree(lang, root, file_path, &mut symbols) {
        Ok(()) => {
            proof {
                match walk_spec(lang, *root, file_path@) {
                    Ok(s) => {
                        assert(Seq::<SymbolModel>::empty() + s =~= s);
                    },
                    Err(_) => {},
                }
            }
            Ok(symbols)
        },
        Err(e) => Err(e),
    }
}


/// The only failure the walk itself can report is a text-decode
/// failure: reading a file, resolving a language and parsing are the
/// callers' failure points.
pub proof fn lemma_walk_error_is_decode(lang: LanguageId, n: SyntaxNode, path: Seq<char>)
    ensures
        walk_spec(lang, n, path) is Err ==> walk_spec(lang, n, path) == Err::<
            Seq<SymbolModel>,
            ExtractError,
        >(ExtractError::TextDecodeFailure),
    decreases n, n.children.len() + 1,
{
    if walk_spec(lang, n, path) is Err {
        if node_symbols(lang, n, path) is Err {
        } else {
            lemma_walk_children_error_is_decode(lang, n, 0, path);
        }
    }
}

/// Companion to [`lemma_walk_error_is_decode`] for child ranges.
pub proof fn lemma_walk_children_error_is_decode(
    lang: LanguageId,
    n: SyntaxNode,
    from: int,
    path: Seq<char>,
)
    ensures
        walk_children_spec(lang, n, from, path) is Err ==> walk_children_spec(lang, n, from, path)
            == Err::<Seq<SymbolModel>, ExtractError>(ExtractError::TextDecodeFailure),
    decreases n, n.children.len() - from,
{
    if from < 0 || from >= n.children.len() {
    } else {
        lemma_walk_error_is_decode(lang, n.children[from], path);
        lemma_walk_children_error_is_decode(lang, n, from + 1, path);
    }
}


/// When the walk of a node succeeds, its own symbols stand first in the
/// result, before anything its children produced.
pub proof fn lemma_own_symbols_first(lang: LanguageId, n: SyntaxNode, path: Seq<char>)
    requires
        walk_spec(lang, n, path) is Ok,
    ensures
        node_symbols(lang, n, path) is Ok,
        ({
            let own = node_symbols(lang, n, path)->Ok_0;
            let all = walk_spec(lang, n, path)->Ok_0;
            own.len() <= all.len() && all.take(own.len() as int) == own
        }),
{
    let own = node_symbols(lang, n, path)->Ok_0;
    let all = walk_spec(lang, n, path)->Ok_0;
    assert(all.take(own.len() as int) =~= own);
}

/// `part` stands contiguously at offset `off` inside `whole`.
pub open spec fn contiguous_at(whole: Seq<SymbolModel>, part: Seq<SymbolModel>, off: int) -> bool {
    0 <= off && off + part.len() <= whole.len() && whole.subrange(off, off + part.len()) == part
}

/// The walk never prunes: when the walk of a node succeeds, the walk of
/// each of its children succeeded too, and that child's records stand
/// contiguously, in order, inside the node's result. A method inside a
/// class is therefore extracted along with the class.
pub proof fn lemma_no_pruning(lang: LanguageId, n: SyntaxNode, path: Seq<char>, i: int)
    requires
        0 <= i < n.children.len(),
        walk_spec(lang, n, path) is Ok,
    ensures
        walk_spec(lang, n.children[i], path) is Ok,
        exists|off: int| #[trigger] contiguous_at(
            walk_spec(lang, n, path)->Ok_0,
            walk_spec(lang, n.children[i], path)->Ok_0,
            off,
        ),
{
    let own = node_symbols(lang, n, path)->Ok_0;
    let rest = walk_children_spec(lang, n, 0, path)->Ok_0;
    let all = walk_spec(lang, n, path)->Ok_0;
    lemma_children_contain(lang, n, 0, path, i);
    let part = walk_spec(lang, n.children[i], path)->Ok_0;
    let off0 = choose|off: int| #[trigger] contiguous_at(rest, part, off);
    assert(all =~= own + rest);
    assert(all.subrange(own.len() + off0, own.len() + off0 + part.len()) =~= rest.subrange(
        off0,
        off0 + part.len(),
    ));
    assert(contiguous_at(all, part, own.len() + off0));
}

/// Each child's records stand contiguously inside the records of the
/// child range that contains it.
proof fn lemma_children_contain(lang: LanguageId, n: SyntaxNode, from: int, path: Seq<char>, i: int)
    requires
        0 <= from <= i < n.children.len(),
        walk_children_spec(lang, n, from, path) is Ok,
    ensures
        walk_spec(lang, n.children[i], path) is Ok,
        exists|off: int| #[trigger] contiguous_at(
            walk_children_spec(lang, n, from, path)->Ok_0,
            walk_spec(lang, n.children[i], path)->Ok_0,
            off,
        ),
    decreases i - from,
{
    let s = walk_spec(lang, n.children[from], path)->Ok_0;
    let rest = walk_children_spec(lang, n, from + 1, path)->Ok_0;
    let whole = walk_children_spec(lang, n, from, path)->Ok_0;
    assert(whole =~= s + rest);
    if i == from {
        assert(whole.subrange(0, s.len() as int) =~= s);
        assert(contiguous_at(whole, s, 0));
    } else {
        lemma_children_contain(lang, n, from + 1, path, i);
        let part = walk_spec(lang, n.children[i], path)->Ok_0;
        let off0 = choose|off: int| #[trigger] contiguous_at(rest, part, off);
        assert(whole.subrange(s.len() + off0, s.len() + off0 + part.len()) =~= rest.subrange(
            off0,
            off0 + part.len(),
        ));
        assert(contiguous_at(whole, part, s.len() + off0));
    }
}


/// The record invariant every extracted symbol satisfies: 1-based,
/// positive, ordered line numbers; the file path of the request; an id
/// synthesized from path, name and 0-based start row; no dependencies.
pub open spec fn symbol_invariant(m: SymbolModel, path: Seq<char>) -> bool {
    &&& 1 <= m.line_start <= m.line_end
    &&& m.file_path == path
    &&& m.id == symbol_id(path, m.symbol_name, m.line_start - 1)
    &&& m.dependencies.len() == 0
}

/// Every record of a successful walk over a well-formed tree satisfies
/// the record invariant.
pub proof fn lemma_walk_records_invariant(lang: LanguageId, n: SyntaxNode, path: Seq<char>)
    requires
        node_wf(n),
        walk_spec(lang, n, path) is Ok,
    ensures
        forall|j: int|
            0 <= j < walk_spec(lang, n, path)->Ok_0.len() ==> symbol_invariant(
                #[trigger] walk_spec(lang, n, path)->Ok_0[j],
                path,
            ),
    decreases n, n.children.len() + 1,
{
    lemma_children_records_invariant(lang, n, 0, path);
}

/// Companion to [`lemma_walk_records_invariant`] for child ranges.
proof fn lemma_children_records_invariant(lang: LanguageId, n: SyntaxNode, from: int, path: Seq<char>)
    requires
        node_wf(n),
        walk_children_spec(lang, n, from, path) is Ok,
    ensures
        forall|j: int|
            0 <= j < walk_children_spec(lang, n, from, path)->Ok_0.len() ==> symbol_invariant(
                #[trigger] walk_children_spec(lang, n, from, path)->Ok_0[j],
                path,
            ),
    decreases n, n.children.len() - from,
{
    if 0 <= from < n.children.len() {
        assert(node_wf(n.children[from]));
        lemma_walk_records_invariant(lang, n.children[from], path);
        lemma_children_records_invariant(lang, n, from + 1, path);
    }
}

} // verus!\n