use rust_indexer::lang::{detect_language, LanguageId};

#[test]
fn detects_every_supported_extension() {
    assert_eq!(detect_language("a.rs"), Some(LanguageId::Rust));
    assert_eq!(detect_language("a.js"), Some(LanguageId::Javascript));
    assert_eq!(detect_language("a.jsx"), Some(LanguageId::Javascript));
    assert_eq!(detect_language("a.mjs"), Some(LanguageId::Javascript));
    assert_eq!(detect_language("a.cjs"), Some(LanguageId::Javascript));
    assert_eq!(detect_language("a.ts"), Some(LanguageId::Typescript));
    assert_eq!(detect_language("a.tsx"), Some(LanguageId::Tsx));
    assert_eq!(detect_language("a.go"), Some(LanguageId::Go));
    assert_eq!(detect_language("a.py"), Some(LanguageId::Python));
    assert_eq!(detect_language("a.java"), Some(LanguageId::Java));
    assert_eq!(detect_language("a.cpp"), Some(LanguageId::Cpp));
    assert_eq!(detect_language("a.cc"), Some(LanguageId::Cpp));
    assert_eq!(detect_language("a.cxx"), Some(LanguageId::Cpp));
    assert_eq!(detect_language("a.c"), Some(LanguageId::Cpp));
    assert_eq!(detect_language("a.h"), Some(LanguageId::Cpp));
    assert_eq!(detect_language("a.hpp"), Some(LanguageId::Cpp));
}

#[test]
fn extension_is_lowercased_before_lookup() {
    assert_eq!(detect_language("MAIN.RS"), Some(LanguageId::Rust));
    assert_eq!(detect_language("Widget.JaVa"), Some(LanguageId::Java));
    assert_eq!(detect_language("x.Tsx"), Some(LanguageId::Tsx));
}

#[test]
fn unknown_or_missing_extension_detects_nothing() {
    assert_eq!(detect_language("notes.txt"), None);
    assert_eq!(detect_language("Makefile"), None);
    assert_eq!(detect_language(""), None);
    assert_eq!(detect_language("archive.tar.gz"), None);
    assert_eq!(detect_language("trailing."), None);
}

#[test]
fn hidden_files_have_no_extension() {
    assert_eq!(detect_language(".gitignore"), None);
    assert_eq!(detect_language("dir/.bashrc"), None);
    // a dot later in the name is a real extension again
    assert_eq!(detect_language(".config.py"), Some(LanguageId::Python));
}

#[test]
fn only_the_final_component_is_consulted() {
    assert_eq!(detect_language("src/lib.rs"), Some(LanguageId::Rust));
    assert_eq!(detect_language("a.rs/readme"), None);
    assert_eq!(detect_language("repo/pkg/util.go"), Some(LanguageId::Go));
    assert_eq!(detect_language("a.b.go"), Some(LanguageId::Go));
}

#[test]
fn language_names_match_their_identifiers() {
    assert_eq!(LanguageId::Rust.name(), "rust");
    assert_eq!(LanguageId::Javascript.name(), "javascript");
    assert_eq!(LanguageId::Typescript.name(), "typescript");
    assert_eq!(LanguageId::Tsx.name(), "tsx");
    assert_eq!(LanguageId::Go.name(), "go");
    assert_eq!(LanguageId::Python.name(), "python");
    assert_eq!(LanguageId::Java.name(), "java");
    assert_eq!(LanguageId::Cpp.name(), "cpp");
}
