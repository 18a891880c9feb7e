use rust_indexer::error::ExtractError;
use rust_indexer::extract::extract_from_tree;
use rust_indexer::lang::LanguageId;
use rust_indexer::parser::ParserService;
use rust_indexer::tree::{NameText, SyntaxNode};

#[test]
fn rust_public_function_yields_one_symbol() {
    let service = ParserService::new();
    let symbols = service
        .extract_symbols("main.rs", "pub fn foo() {}")
        .expect("extraction should succeed");
    assert_eq!(symbols.len(), 1);
    let s = &symbols[0];
    assert_eq!(s.symbol_type, "function");
    assert_eq!(s.symbol_name, "foo");
    assert!(s.exported);
    assert_eq!(s.visibility.as_deref(), Some("public"));
    assert_eq!(s.line_start, 1);
    assert_eq!(s.line_end, 1);
    assert_eq!(s.id, "main.rs_foo_0");
    assert_eq!(s.file_path, "main.rs");
    assert_eq!(s.signature.as_deref(), Some("pub fn foo() {}"));
    assert!(s.dependencies.is_empty());
}

#[test]
fn rust_private_function_is_not_exported() {
    let service = ParserService::new();
    let symbols = service
        .extract_symbols("lib.rs", "fn quiet() {}")
        .expect("extraction should succeed");
    assert_eq!(symbols.len(), 1);
    assert!(!symbols[0].exported);
    assert_eq!(symbols[0].visibility.as_deref(), Some("private"));
}

#[test]
fn go_export_follows_case_of_first_letter() {
    let service = ParserService::new();
    let lower = service
        .extract_symbols("m.go", "package main\nfunc bar() {}\n")
        .expect("extraction should succeed");
    let upper = service
        .extract_symbols("m.go", "package main\nfunc Bar() {}\n")
        .expect("extraction should succeed");
    assert_eq!(lower.len(), 1);
    assert_eq!(upper.len(), 1);
    assert_eq!(lower[0].symbol_name, "bar");
    assert!(!lower[0].exported);
    assert_eq!(upper[0].symbol_name, "Bar");
    assert!(upper[0].exported);
    assert_eq!(upper[0].visibility, None);
    assert_eq!(upper[0].line_start, 2);
}

#[test]
fn nested_declarations_are_all_extracted() {
    let service = ParserService::new();
    let symbols = service
        .extract_symbols("shapes.py", "class A:\n    def m(self):\n        pass\n")
        .expect("extraction should succeed");
    assert_eq!(symbols.len(), 2);
    let class = &symbols[0];
    let method = &symbols[1];
    assert_eq!(class.symbol_type, "class");
    assert_eq!(class.symbol_name, "A");
    assert_eq!(method.symbol_type, "function");
    assert_eq!(method.symbol_name, "m");
    // the method's range nests inside the class's range
    assert!(class.line_start <= method.line_start);
    assert!(method.line_end <= class.line_end);
}

#[test]
fn java_members_are_reported_public() {
    let service = ParserService::new();
    let symbols = service
        .extract_symbols("Foo.java", "class Foo { void run() {} }")
        .expect("extraction should succeed");
    assert_eq!(symbols.len(), 2);
    assert_eq!(symbols[0].symbol_type, "class");
    assert_eq!(symbols[0].symbol_name, "Foo");
    assert_eq!(symbols[1].symbol_type, "method");
    assert_eq!(symbols[1].symbol_name, "run");
    for s in &symbols {
        assert!(s.exported);
        assert_eq!(s.visibility.as_deref(), Some("public"));
    }
}

#[test]
fn javascript_symbols_are_never_exported() {
    let service = ParserService::new();
    let symbols = service
        .extract_symbols("app.js", "function hello() {}\nclass Box {}\n")
        .expect("extraction should succeed");
    assert_eq!(symbols.len(), 2);
    assert_eq!(symbols[0].symbol_type, "function");
    assert_eq!(symbols[0].symbol_name, "hello");
    assert_eq!(symbols[1].symbol_type, "class");
    assert_eq!(symbols[1].symbol_name, "Box");
    for s in &symbols {
        assert!(!s.exported);
        assert_eq!(s.visibility, None);
    }
}

#[test]
fn typescript_function_is_extracted() {
    let service = ParserService::new();
    let symbols = service
        .extract_symbols("util.ts", "function twice(x: number): number { return x * 2; }")
        .expect("extraction should succeed");
    assert_eq!(symbols.len(), 1);
    assert_eq!(symbols[0].symbol_type, "function");
    assert_eq!(symbols[0].symbol_name, "twice");
}

#[test]
fn cpp_class_and_namespace_are_extracted() {
    let service = ParserService::new();
    let symbols = service
        .extract_symbols("w.hpp", "namespace util {\nclass Widget { };\n}\n")
        .expect("extraction should succeed");
    assert_eq!(symbols.len(), 2);
    assert_eq!(symbols[0].symbol_type, "namespace");
    assert_eq!(symbols[0].symbol_name, "util");
    assert_eq!(symbols[1].symbol_type, "class");
    assert_eq!(symbols[1].symbol_name, "Widget");
}

#[test]
fn multi_line_signature_is_truncated_to_first_line() {
    let service = ParserService::new();
    let symbols = service
        .extract_symbols("api.rs", "pub fn call(\n    x: i32,\n) -> i32 { x }\n")
        .expect("extraction should succeed");
    assert_eq!(symbols.len(), 1);
    assert_eq!(symbols[0].signature.as_deref(), Some("pub fn call("));
    assert_eq!(symbols[0].line_start, 1);
    assert_eq!(symbols[0].line_end, 3);
}

#[test]
fn unsupported_extension_is_refused() {
    let service = ParserService::new();
    let r = service.extract_symbols("notes.txt", "pub fn foo() {}");
    assert_eq!(r.unwrap_err(), ExtractError::UnsupportedLanguage);
}

#[test]
fn dependency_extraction_is_a_stub() {
    let service = ParserService::new();
    let deps = service.extract_dependencies("main.rs").unwrap();
    assert!(deps.is_empty());
}

fn leaf(kind: &str, name: NameText, row: usize, head: &str) -> SyntaxNode {
    SyntaxNode {
        kind: kind.to_owned(),
        start_row: row,
        end_row: row,
        name,
        head: Some(head.to_owned()),
        children: Vec::new(),
    }
}

#[test]
fn same_name_same_row_ids_collide_and_distinct_names_do_not() {
    let root = SyntaxNode {
        kind: "source_file".to_owned(),
        start_row: 0,
        end_row: 0,
        name: NameText::Missing,
        head: Some("".to_owned()),
        children: vec![
            leaf("function_item", NameText::Text("dup".to_owned()), 0, "fn dup() {}"),
            leaf("function_item", NameText::Text("dup".to_owned()), 0, "fn dup() {}"),
            leaf("function_item", NameText::Text("other".to_owned()), 0, "fn other() {}"),
        ],
    };
    let symbols = extract_from_tree(LanguageId::Rust, &root, "a.rs").unwrap();
    assert_eq!(symbols.len(), 3);
    // the documented limitation: same name, same row, same file collide
    assert_eq!(symbols[0].id, symbols[1].id);
    // distinct names stay distinct even on the same row
    assert_ne!(symbols[0].id, symbols[2].id);
    assert_eq!(symbols[0].id, "a.rs_dup_0");
    assert_eq!(symbols[2].id, "a.rs_other_0");
}

#[test]
fn undecodable_name_aborts_the_walk() {
    let root = SyntaxNode {
        kind: "source_file".to_owned(),
        start_row: 0,
        end_row: 1,
        name: NameText::Missing,
        head: Some("".to_owned()),
        children: vec![leaf("function_item", NameText::Undecodable, 1, "fn ???")],
    };
    let r = extract_from_tree(LanguageId::Rust, &root, "bad.rs");
    assert_eq!(r.unwrap_err(), ExtractError::TextDecodeFailure);
}

#[test]
fn missing_signature_is_fatal_only_for_fail_fast_languages() {
    let mut node = leaf("function_definition", NameText::Text("f".to_owned()), 0, "");
    node.head = None;
    let root = SyntaxNode {
        kind: "module".to_owned(),
        start_row: 0,
        end_row: 0,
        name: NameText::Missing,
        head: None,
        children: vec![node],
    };
    // python treats a failed signature as fatal
    let py = extract_from_tree(LanguageId::Python, &root, "a.py");
    assert_eq!(py.unwrap_err(), ExtractError::TextDecodeFailure);
    // javascript records the symbol without a signature
    let mut js_node = leaf("function_declaration", NameText::Text("f".to_owned()), 0, "");
    js_node.head = None;
    let js_root = SyntaxNode {
        kind: "program".to_owned(),
        start_row: 0,
        end_row: 0,
        name: NameText::Missing,
        head: None,
        children: vec![js_node],
    };
    let js = extract_from_tree(LanguageId::Javascript, &js_root, "a.js").unwrap();
    assert_eq!(js.len(), 1);
    assert_eq!(js[0].signature, None);
}

#[test]
fn signatures_are_trimmed() {
    let node = leaf(
        "function_item",
        NameText::Text("padded".to_owned()),
        0,
        "   fn padded() {}   ",
    );
    let symbols = extract_from_tree(LanguageId::Rust, &node, "p.rs").unwrap();
    assert_eq!(symbols[0].signature.as_deref(), Some("fn padded() {}"));
}

#[test]
fn rust_item_kinds_map_to_their_types() {
    let service = ParserService::new();
    let source = "struct S;\nenum E { A }\ntrait T {}\ntype Alias = S;\nconst K: u8 = 1;\nstatic G: u8 = 2;\n";
    let symbols = service
        .extract_symbols("kinds.rs", source)
        .expect("extraction should succeed");
    let types: Vec<&str> = symbols.iter().map(|s| s.symbol_type.as_str()).collect();
    assert_eq!(types, vec!["struct", "enum", "trait", "type", "const", "static"]);
    let names: Vec<&str> = symbols.iter().map(|s| s.symbol_name.as_str()).collect();
    assert_eq!(names, vec!["S", "E", "T", "Alias", "K", "G"]);
}

#[test]
fn javascript_class_methods_are_extracted() {
    let service = ParserService::new();
    let symbols = service
        .extract_symbols("box.js", "class Box {\n  open() {}\n}\n")
        .expect("extraction should succeed");
    assert_eq!(symbols.len(), 2);
    assert_eq!(symbols[0].symbol_type, "class");
    assert_eq!(symbols[1].symbol_type, "method");
    assert_eq!(symbols[1].symbol_name, "open");
    // pre-order: the class precedes its method, and the ranges nest
    assert!(symbols[0].line_start <= symbols[1].line_start);
    assert!(symbols[1].line_end <= symbols[0].line_end);
}

#[test]
fn tsx_functions_are_extracted() {
    let service = ParserService::new();
    let symbols = service
        .extract_symbols("App.tsx", "function App() { return 1; }")
        .expect("extraction should succeed");
    assert_eq!(symbols.len(), 1);
    assert_eq!(symbols[0].symbol_type, "function");
    assert_eq!(symbols[0].symbol_name, "App");
}

#[test]
fn go_methods_are_extracted_and_unnamed_nodes_are_skipped() {
    let service = ParserService::new();
    let source = "package p\ntype Point struct{ X int }\nfunc (p Point) Norm() int { return p.X }\n";
    let symbols = service
        .extract_symbols("geo.go", source)
        .expect("extraction should succeed");
    // the grammar puts a type declaration's name on an inner node, so
    // the declaration has no name field and is silently skipped
    assert_eq!(symbols.len(), 1);
    assert_eq!(symbols[0].symbol_type, "method");
    assert_eq!(symbols[0].symbol_name, "Norm");
    assert!(symbols[0].exported);
}
