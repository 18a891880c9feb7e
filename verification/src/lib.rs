//! Extraction of structural code symbols and line-range content hashes
//! from source files in several programming languages.
//!
//! A file's language is resolved from its extension, the source text is
//! parsed into a concrete syntax tree by the tree-sitter grammars, and a
//! pre-order walk over that tree applies a per-language rule table that
//! decides which nodes become symbols and how their name, visibility and
//! signature are derived. A separate service hashes an arbitrary
//! contiguous line range of a file for change detection.

use vstd::prelude::*;

pub mod chunk;
pub mod error;
pub mod extract;
pub mod lang;
pub mod parser;
pub mod symbol;
pub mod text;
pub mod tree;

verus! {

pub use crate::error::ExtractError;
pub use crate::lang::{detect_language, LanguageId};
pub use crate::parser::ParserService;
pub use crate::symbol::{CodeSymbol, ExtractRequest, ExtractResponse};

} // verus!
