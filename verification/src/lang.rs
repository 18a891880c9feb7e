use vstd::prelude::*;

use crate::text::str_eq;

verus! {

/// The languages the extractor understands. `javascript`, `typescript`
/// and `tsx` are distinct grammars that share one extraction ruleset.
#[derive(Clone, Copy, Debug, PartialEq, Eq, Structural)]
pub enum LanguageId {
    Rust,
    Javascript,
    Typescript,
    Tsx,
    Go,
    Python,
    Java,
    Cpp,
}

impl LanguageId {
    /// The identifier the language is known by.
    pub fn name(&self) -> (r: &'static str)
        ensures
            r@ == self.spec_name(),
    {
        match self {
            LanguageId::Rust => "rust",
            LanguageId::Javascript => "javascript",
            LanguageId::Typescript => "typescript",
            LanguageId::Tsx => "tsx",
            LanguageId::Go => "go",
            LanguageId::Python => "python",
            LanguageId::Java => "java",
            LanguageId::Cpp => "cpp",
        }
    }

    /// The identifier the language is known by.
    pub open spec fn spec_name(&self) -> Seq<char> {
        match self {
            LanguageId::Rust => "rust"@,
            LanguageId::Javascript => "javascript"@,
            LanguageId::Typescript => "typescript"@,
            LanguageId::Tsx => "tsx"@,
            LanguageId::Go => "go"@,
            LanguageId::Python => "python"@,
            LanguageId::Java => "java"@,
            LanguageId::Cpp => "cpp"@,
        }
    }
}

/// The index where the final path component begins: just after the last
/// slash, or 0 when the path has none.
pub open spec fn component_start(s: Seq<char>) -> int
    decreases s.len(),
{
    if s.len() == 0 {
        0
    } else if s.last() == '/' {
        s.len() as int
    } else {
        component_start(s.drop_last())
    }
}

/// The index of the last dot of `s`, or -1 when `s` has none.
pub open spec fn last_dot(s: Seq<char>) -> int
    decreases s.len(),
{
    if s.len() == 0 {
        -1
    } else if s.last() == '.' {
        s.len() - 1
    } else {
        last_dot(s.drop_last())
    }
}

/// The extension of a path: the text after the last dot of its final
/// component, where that dot exists and is not the component's first
/// character (a name that only starts with a dot has no extension).
pub open spec fn extension_of(path: Seq<char>) -> Option<Seq<char>> {
    let comp = path.skip(component_start(path));
    let d = last_dot(comp);
    if d <= 0 {
        None
    } else {
        Some(comp.skip(d + 1))
    }
}

/// The character with ASCII uppercase letters lowered, all others kept.
pub open spec fn lower_char(c: char) -> char {
    if 65 <= (c as u32) && (c as u32) <= 90 {
        (((c as u32) + 32) as u8) as char
    } else {
        c
    }
}

/// `s` with ASCII uppercase letters lowered.
pub open spec fn lower_ascii(s: Seq<char>) -> Seq<char> {
    s.map_values(|c: char| lower_char(c))
}

/// The static extension table: the language identifier for a lowercased
/// extension, or none when the extension is not recognised.
pub open spec fn language_for_extension(ext: Seq<char>) -> Option<LanguageId> {
    if ext == "rs"@ {
        Some(LanguageId::Rust)
    } else if ext == "js"@ || ext == "jsx"@ || ext == "mjs"@ || ext == "cjs"@ {
        Some(LanguageId::Javascript)
    } else if ext == "ts"@ {
        Some(LanguageId::Typescript)
    } else if ext == "tsx"@ {
        Some(LanguageId::Tsx)
    } else if ext == "go"@ {
        Some(LanguageId::Go)
    } else if ext == "py"@ {
        Some(LanguageId::Python)
    } else if ext == "java"@ {
        Some(LanguageId::Java)
    } else if ext == "cpp"@ || ext == "cc"@ || ext == "cxx"@ || ext == "c"@ || ext == "h"@
        || ext == "hpp"@ {
        Some(LanguageId::Cpp)
    } else {
        None
    }
}

/// The language a path resolves to: the extension table applied to the
/// lowercased extension of the path, none when the path has no
/// extension or an unrecognised one.
pub open spec fn spec_detect_language(path: Seq<char>) -> Option<LanguageId> {
    match extension_of(path) {
        None => None,
        Some(e) => language_for_extension(lower_ascii(e)),
    }
}

proof fn lemma_component_start_at(s: Seq<char>, i: int)
    requires
        0 <= i <= s.len(),
        forall|k: int| i <= k < s.len() ==> s[k] != '/',
        i > 0 ==> s[i - 1] == '/',
    ensures
        component_start(s) == i,
    decreases s.len(),
{
    if s.len() == 0 {
    } else if s.last() == '/' {
        assert(i == s.len());
    } else {
        assert(i < s.len());
        lemma_component_start_at(s.drop_last(), i);
    }
}

proof fn lemma_last_dot_at(s: Seq<char>, d: int)
    requires
        -1 <= d < s.len(),
        forall|k: int| d < k < s.len() ==> s[k] != '.',
        d >= 0 ==> s[d] == '.',
    ensures
        last_dot(s) == d,
    decreases s.len(),
{
    if s.len() == 0 {
    } else if s.last() == '.' {
        assert(d == s.len() - 1);
    } else {
        assert(d < s.len() - 1);
        lemma_last_dot_at(s.drop_last(), d);
    }
}

/// Lowercases ASCII uppercase letters of `s`, exactly [`lower_ascii`].
pub fn lower_ascii_str(s: &str) -> (r: String)
    ensures
        r@ == lower_ascii(s@),
{
    let n = s.unicode_len();
    let mut out = String::new();
    let mut i: usize = 0;
    while i < n
        invariant
            0 <= i <= n,
            n == s@.len(),
            out@ =~= lower_ascii(s@.take(i as int)),
        decreases n - i,
    {
        let c = s.get_char(i);
        let u = c as u32;
        let low: char = if 65 <= u && u <= 90 {
            ((u + 32) as u8) as char
        } else {
            c
        };
        crate::text::push_char(&mut out, low);
        proof {
            assert(lower_ascii(s@.take(i + 1)) =~= lower_ascii(s@.take(i as int)).push(
                lower_char(s@[i as int]),
            ));
        }
        i = i + 1;
    }
    proof {
        assert(s@.take(n as int) =~= s@);
    }
    out
}

/// Resolves a file path to a language by its extension, using the static
/// table; none exactly when the path has no extension or an unknown one.
pub fn detect_language(file_path: &str) -> (r: Option<LanguageId>)
    ensures
        r == spec_detect_language(file_path@),
{
    let n = file_path.unicode_len();
    // the start of the final path component
    let mut cs: usize = n;
    while cs > 0 && file_path.get_char(cs - 1) != '/'
        invariant
            0 <= cs <= n,
            n == file_path@.len(),
            forall|k: int| cs <= k < n ==> file_path@[k] != '/',
        decreases cs,
    {
        cs = cs - 1;
    }
    proof {
        lemma_component_start_at(file_path@, cs as int);
    }
    // the last dot of the component, if any
    let mut dot: usize = n;
    while dot > cs && file_path.get_char(dot - 1) != '.'
        invariant
            cs <= dot <= n,
            n == file_path@.len(),
            forall|k: int| dot <= k < n ==> file_path@[k] != '.',
        decreases dot,
    {
        dot = dot - 1;
    }
    proof {
        let comp = file_path@.skip(cs as int);
        if dot == cs {
            // no dot in the component at all
            lemma_last_dot_at(comp, -1);
        } else {
            lemma_last_dot_at(comp, dot - 1 - cs);
        }
    }
    if dot - cs <= 1 {
        // no dot, or the component starts with its only dot
        return None;
    }
    let ext = file_path.substring_char(dot, n);
    proof {
        let comp = file_path@.skip(cs as int);
        assert(comp.skip(last_dot(comp) + 1) =~= file_path@.subrange(dot as int, n as int));
    }
    let low = lower_ascii_str(ext);
    let l = low.as_str();
    if str_eq(l, "rs") {
        Some(LanguageId::Rust)
    } else if str_eq(l, "js") || str_eq(l, "jsx") || str_eq(l, "mjs") || str_eq(l, "cjs") {
        Some(LanguageId::Javascript)
    } else if str_eq(l, "ts") {
        Some(LanguageId::Typescript)
    } else if str_eq(l, "tsx") {
        Some(LanguageId::Tsx)
    } else if str_eq(l, "go") {
        Some(LanguageId::Go)
    } else if str_eq(l, "py") {
        Some(LanguageId::Python)
    } else if str_eq(l, "java") {
        Some(LanguageId::Java)
    } else if str_eq(l, "cpp") || str_eq(l, "cc") || str_eq(l, "cxx") || str_eq(l, "c")
        || str_eq(l, "h") || str_eq(l, "hpp") {
        Some(LanguageId::Cpp)
    } else {
        None
    }
}

} // verus!
