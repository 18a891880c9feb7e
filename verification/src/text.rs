use vstd::prelude::*;

verus! {

// ------------------------------------------------------------------
// Trusted bridges to std string primitives that vstd does not specify.
// ------------------------------------------------------------------

/// Relies on String::push: appends exactly one character.
#[verifier::external_body]
pub fn push_char(s: &mut String, c: char)
    ensures
        final(s)@ == old(s)@.push(c),
{
    s.push(c)
}

/// Relies on str's PartialEq: two string slices are equal exactly when
/// their character sequences are.
#[verifier::external_body]
pub fn str_eq(a: &str, b: &str) -> (r: bool)
    ensures
        r == (a@ == b@),
{
    a == b
}

/// Whether `char::is_uppercase` holds of a character. The result depends
/// on the character alone.
pub uninterp spec fn char_uppercase(c: char) -> bool;

/// Relies on char::is_uppercase: true exactly for characters with the
/// Unicode uppercase property; in particular true on `A`..`Z` and false
/// on every character below `A`, so on digits and ASCII punctuation.
pub assume_specification[ char::is_uppercase ](c: char) -> (r: bool)
    ensures
        r == char_uppercase(c),
        65 <= (c as u32) && (c as u32) <= 90 ==> r,
        (c as u32) < 65 ==> !r,
        97 <= (c as u32) && (c as u32) <= 122 ==> !r,
;

// ------------------------------------------------------------------
// Whitespace and trimming
// ------------------------------------------------------------------

/// The characters with the Unicode white-space property, the set that
/// `str::trim` removes.
pub open spec fn is_blank(c: char) -> bool {
    let u = c as u32;
    ||| (9 <= u && u <= 13)
    ||| u == 32
    ||| u == 0x85
    ||| u == 0xA0
    ||| u == 0x1680
    ||| (0x2000 <= u && u <= 0x200A)
    ||| u == 0x2028
    ||| u == 0x2029
    ||| u == 0x202F
    ||| u == 0x205F
    ||| u == 0x3000
}

/// Runtime test for [`is_blank`].
pub fn blank_char(c: char) -> (r: bool)
    ensures
        r == is_blank(c),
{
    let u = c as u32;
    (9 <= u && u <= 13) || u == 32 || u == 0x85 || u == 0xA0 || u == 0x1680
        || (0x2000 <= u && u <= 0x200A) || u == 0x2028 || u == 0x2029 || u == 0x202F
        || u == 0x205F || u == 0x3000
}

/// `s` without its leading white space.
pub open spec fn trim_front(s: Seq<char>) -> Seq<char>
    decreases s.len(),
{
    if s.len() == 0 {
        s
    } else if is_blank(s[0]) {
        trim_front(s.drop_first())
    } else {
        s
    }
}

/// `s` without its trailing white space.
pub open spec fn trim_back(s: Seq<char>) -> Seq<char>
    decreases s.len(),
{
    if s.len() == 0 {
        s
    } else if is_blank(s.last()) {
        trim_back(s.drop_last())
    } else {
        s
    }
}

/// `s` without surrounding white space: what `str::trim` returns.
pub open spec fn trimmed(s: Seq<char>) -> Seq<char> {
    trim_back(trim_front(s))
}

proof fn lemma_trim_front_skip(s: Seq<char>, i: int)
    requires
        0 <= i <= s.len(),
        forall|k: int| 0 <= k < i ==> is_blank(s[k]),
        i < s.len() ==> !is_blank(s[i]),
    ensures
        trim_front(s) =~= s.skip(i),
    decreases i,
{
    if i == 0 {
        assert(trim_front(s) =~= s.skip(0));
    } else {
        assert(is_blank(s[0]));
        lemma_trim_front_skip(s.drop_first(), i - 1);
        assert(s.drop_first().skip(i - 1) =~= s.skip(i));
    }
}

proof fn lemma_trim_back_take(s: Seq<char>, j: int)
    requires
        0 <= j <= s.len(),
        forall|k: int| j <= k < s.len() ==> is_blank(s[k]),
        j > 0 ==> !is_blank(s[j - 1]),
    ensures
        trim_back(s) =~= s.take(j),
    decreases s.len() - j,
{
    if j == s.len() {
        assert(trim_back(s) =~= s.take(j)) by {
            lemma_trim_back_fixpoint(s, j);
        }
    } else {
        assert(is_blank(s.last()));
        lemma_trim_back_take(s.drop_last(), j);
        assert(s.drop_last().take(j) =~= s.take(j));
    }
}

proof fn lemma_trim_back_fixpoint(s: Seq<char>, j: int)
    requires
        j == s.len(),
        j > 0 ==> !is_blank(s[j - 1]),
    ensures
        trim_back(s) =~= s,
{
}

/// The trimmed text of `s`, as `str::trim` computes it.
pub fn trim_str(s: &str) -> (r: String)
    ensures
        r@ == trimmed(s@),
{
    let n = s.unicode_len();
    let mut i: usize = 0;
    while i < n && blank_char(s.get_char(i))
        invariant
            0 <= i <= n,
            n == s@.len(),
            forall|k: int| 0 <= k < i ==> is_blank(s@[k]),
        decreases n - i,
    {
        i = i + 1;
    }
    let mut j: usize = n;
    while j > i && blank_char(s.get_char(j - 1))
        invariant
            i <= j <= n,
            n == s@.len(),
            forall|k: int| j <= k < n ==> is_blank(s@[k]),
        decreases j,
    {
        j = j - 1;
    }
    let sub = s.substring_char(i, j);
    proof {
        lemma_trim_front_skip(s@, i as int);
        let t = s@.skip(i as int);
        lemma_trim_back_take(t, j - i);
        assert(forall|k: int| j - i <= k < t.len() ==> is_blank(#[trigger] t[k]));
        assert(t.take(j - i) =~= s@.subrange(i as int, j as int));
    }
    sub.to_owned()
}

// ------------------------------------------------------------------
// Line structure
// ------------------------------------------------------------------

/// The index of the first newline at or after `from`, or `s.len()` when
/// there is none.
pub open spec fn first_newline(s: Seq<char>, from: int) -> int
    decreases s.len() - from,
{
    if from < 0 || from >= s.len() {
        s.len() as int
    } else if s[from] == '\n' {
        from
    } else {
        first_newline(s, from + 1)
    }
}

/// `s` without one trailing carriage return, if it has one.
pub open spec fn strip_cr(s: Seq<char>) -> Seq<char> {
    if s.len() > 0 && s.last() == '\r' {
        s.drop_last()
    } else {
        s
    }
}

/// The first line of `s`: what `s.lines().next()` yields, or empty text
/// when `s` is empty. A carriage return is stripped only before a
/// newline, never at the end of the text.
pub open spec fn first_line(s: Seq<char>) -> Seq<char> {
    let i = first_newline(s, 0);
    if i == s.len() {
        s
    } else {
        strip_cr(s.take(i))
    }
}

/// The lines of `s` in order: what `s.lines()` yields. A final line
/// ending produces no extra empty line.
pub open spec fn split_lines(s: Seq<char>) -> Seq<Seq<char>>
    decreases s.len(),
    via split_lines_decreases
{
    if s.len() == 0 {
        Seq::empty()
    } else {
        let i = first_newline(s, 0);
        if i == s.len() {
            seq![s]
        } else {
            seq![strip_cr(s.take(i))] + split_lines(s.skip(i + 1))
        }
    }
}

#[via_fn]
proof fn split_lines_decreases(s: Seq<char>) {
    if s.len() > 0 {
        lemma_first_newline_bounds(s, 0);
    }
}

proof fn lemma_first_newline_at(s: Seq<char>, from: int, i: int)
    requires
        0 <= from <= i <= s.len(),
        forall|k: int| from <= k < i ==> s[k] != '\n',
        i < s.len() ==> s[i] == '\n',
    ensures
        first_newline(s, from) == i,
    decreases i - from,
{
    if from < i {
        lemma_first_newline_at(s, from + 1, i);
    }
}

/// The index of the first newline of `s` at or after `from`, or the
/// character count when there is none.
pub fn find_newline(s: &str, from: usize) -> (r: usize)
    requires
        from <= s@.len(),
    ensures
        r == first_newline(s@, from as int),
        from <= r <= s@.len(),
{
    let n = s.unicode_len();
    let mut i: usize = from;
    while i < n && s.get_char(i) != '\n'
        invariant
            from <= i <= n,
            n == s@.len(),
            forall|k: int| from <= k < i ==> s@[k] != '\n',
        decreases n - i,
    {
        i = i + 1;
    }
    proof {
        lemma_first_newline_at(s@, from as int, i as int);
    }
    i
}

/// The first line of `s`, exactly [`first_line`].
pub fn first_line_str(s: &str) -> (r: String)
    ensures
        r@ == first_line(s@),
{
    let n = s.unicode_len();
    let i = find_newline(s, 0);
    if i == n {
        s.to_owned()
    } else {
        let end = if i > 0 && s.get_char(i - 1) == '\r' {
            i - 1
        } else {
            i
        };
        proof {
            assert(s@.take(i as int).len() == i as int);
            if i > 0 && s@[i - 1] == '\r' {
                assert(strip_cr(s@.take(i as int)) =~= s@.subrange(0, i - 1));
            } else {
                assert(strip_cr(s@.take(i as int)) =~= s@.subrange(0, i as int));
            }
        }
        s.substring_char(0, end).to_owned()
    }
}

/// The lines of `s`, exactly [`split_lines`].
pub fn split_lines_str(s: &str) -> (r: Vec<String>)
    ensures
        r.deep_view() =~= split_lines(s@),
    decreases s@.len(),
{
    let n = s.unicode_len();
    if n == 0 {
        let r: Vec<String> = Vec::new();
        return r;
    }
    let i = find_newline(s, 0);
    if i == n {
        let mut r: Vec<String> = Vec::new();
        r.push(s.to_owned());
        proof {
            assert(r.deep_view() =~= seq![s@]);
        }
        r
    } else {
        let end = if i > 0 && s.get_char(i - 1) == '\r' {
            i - 1
        } else {
            i
        };
        let line = s.substring_char(0, end).to_owned();
        let rest = s.substring_char(i + 1, n);
        let mut r = split_lines_str(rest);
        r.insert(0, line);
        proof {
            assert(rest@ =~= s@.skip(i + 1));
            if i > 0 && s@[i - 1] == '\r' {
                assert(line@ =~= strip_cr(s@.take(i as int)));
            } else {
                assert(line@ =~= strip_cr(s@.take(i as int)));
            }
            assert(r.deep_view() =~= seq![strip_cr(s@.take(i as int))] + split_lines(s@.skip(i + 1)));
        }
        r
    }
}

/// Every text has no more lines than characters.
pub proof fn lemma_line_count(s: Seq<char>)
    ensures
        split_lines(s).len() <= s.len(),
    decreases s.len(),
{
    if s.len() > 0 {
        let i = first_newline(s, 0);
        lemma_first_newline_bounds(s, 0);
        if i < s.len() {
            lemma_line_count(s.skip(i + 1));
        }
    }
}

proof fn lemma_first_newline_bounds(s: Seq<char>, from: int)
    requires
        0 <= from <= s.len(),
    ensures
        from <= first_newline(s, from) <= s.len(),
    decreases s.len() - from,
{
    if from < s.len() && s[from] != '\n' {
        lemma_first_newline_bounds(s, from + 1);
    }
}

/// The lines `lines[from..to]` joined with a single newline between
/// consecutive lines; empty when the range is empty.
pub open spec fn join_range(lines: Seq<Seq<char>>, from: int, to: int) -> Seq<char>
    decreases to - from,
{
    if from < 0 || from >= to || to > lines.len() {
        Seq::empty()
    } else if from + 1 == to {
        lines[from]
    } else {
        lines[from] + seq!['\n'] + join_range(lines, from + 1, to)
    }
}

/// Joins `lines[from..to]` with single newlines, exactly [`join_range`].
pub fn join_lines(lines: &Vec<String>, from: usize, to: usize) -> (r: String)
    requires
        to <= lines.len(),
    ensures
        r@ =~= join_range(lines.deep_view(), from as int, to as int),
    decreases to - from,
{
    if from >= to {
        String::new()
    } else if from + 1 == to {
        lines[from].clone()
    } else {
        let mut s = lines[from].clone();
        push_char(&mut s, '\n');
        let rest = join_lines(lines, from + 1, to);
        s.append(rest.as_str());
        s
    }
}

// ------------------------------------------------------------------
// Digit rendering
// ------------------------------------------------------------------

/// The decimal digit character for `d` in `0..10`.
pub open spec fn dec_digit(d: int) -> char {
    ((d + 48) as u8) as char
}

/// The hexadecimal digit character for `d` in `0..16`, lowercase.
pub open spec fn hex_digit(d: int) -> char {
    if d < 10 {
        ((d + 48) as u8) as char
    } else {
        ((d + 87) as u8) as char
    }
}

/// The decimal rendering of `n`, without leading zeros.
pub open spec fn dec_seq(n: int) -> Seq<char>
    decreases n,
{
    if n < 10 {
        seq![dec_digit(n)]
    } else {
        dec_seq(n / 10).push(dec_digit(n % 10))
    }
}

/// The lowercase hexadecimal rendering of `n`, without leading zeros:
/// what formatting an integer with `{:x}` produces.
pub open spec fn hex_seq(n: int) -> Seq<char>
    decreases n,
{
    if n < 16 {
        seq![hex_digit(n)]
    } else {
        hex_seq(n / 16).push(hex_digit(n % 16))
    }
}

/// Renders `n` in decimal, exactly [`dec_seq`].
pub fn u64_to_dec(n: u64) -> (r: String)
    ensures
        r@ == dec_seq(n as int),
    decreases n,
{
    if n < 10 {
        let mut s = String::new();
        push_char(&mut s, ((n + 48) as u8) as char);
        proof {
            assert(s@ =~= seq![dec_digit(n as int)]);
        }
        s
    } else {
        let mut s = u64_to_dec(n / 10);
        push_char(&mut s, ((n % 10 + 48) as u8) as char);
        s
    }
}

/// Renders `n` in lowercase hexadecimal, exactly [`hex_seq`].
pub fn u64_to_hex(n: u64) -> (r: String)
    ensures
        r@ == hex_seq(n as int),
    decreases n,
{
    if n < 16 {
        let mut s = String::new();
        let d: u64 = if n < 10 {
            n + 48
        } else {
            n + 87
        };
        push_char(&mut s, (d as u8) as char);
        proof {
            assert(s@ =~= seq![hex_digit(n as int)]);
        }
        s
    } else {
        let mut s = u64_to_hex(n / 16);
        let m = n % 16;
        let d: u64 = if m < 10 {
            m + 48
        } else {
            m + 87
        };
        push_char(&mut s, (d as u8) as char);
        s
    }
}

// ------------------------------------------------------------------
// The chunk digest: 64-bit FNV-1a over the scalar values of the text's
// characters, each folded in as four little-endian bytes.
// ------------------------------------------------------------------

/// The FNV-1a offset basis.
pub const FNV_OFFSET: u64 = 0xcbf2_9ce4_8422_2325;

/// The FNV-1a prime.
pub const FNV_PRIME: u64 = 0x0000_0100_0000_01b3;

/// One FNV-1a step: fold the byte `b` into the state `h`.
pub open spec fn fnv_byte(h: u64, b: u8) -> u64 {
    (((h ^ b as u64) as int * FNV_PRIME as int) % 0x1_0000_0000_0000_0000) as u64
}

/// Folds the four little-endian bytes of the character's scalar value.
pub open spec fn fnv_char(h: u64, c: char) -> u64 {
    let u = c as u32;
    let b0 = (u as int % 256) as u8;
    let b1 = (u as int / 256 % 256) as u8;
    let b2 = (u as int / 65536 % 256) as u8;
    let b3 = (u as int / 16777216 % 256) as u8;
    fnv_byte(fnv_byte(fnv_byte(fnv_byte(h, b0), b1), b2), b3)
}

/// Folds `s[from..]` into the state `h`.
pub open spec fn fnv_from(s: Seq<char>, from: int, h: u64) -> u64
    decreases s.len() - from,
{
    if from < 0 || from >= s.len() {
        h
    } else {
        fnv_from(s, from + 1, fnv_char(h, s[from]))
    }
}

/// The digest of a text: FNV-1a over its characters from the offset
/// basis. Equal texts always yield equal digests.
pub open spec fn text_digest(s: Seq<char>) -> u64 {
    fnv_from(s, 0, FNV_OFFSET)
}

/// One exec FNV-1a step, exactly [`fnv_byte`].
fn fnv_byte_exec(h: u64, b: u8) -> (r: u64)
    ensures
        r == fnv_byte(h, b),
{
    (h ^ b as u64).wrapping_mul(FNV_PRIME)
}

/// Folds one character, exactly [`fnv_char`].
fn fnv_char_exec(h: u64, c: char) -> (r: u64)
    ensures
        r == fnv_char(h, c),
{
    let u = c as u32;
    let b0 = (u % 256) as u8;
    let b1 = (u / 256 % 256) as u8;
    let b2 = (u / 65536 % 256) as u8;
    let b3 = (u / 16777216 % 256) as u8;
    fnv_byte_exec(fnv_byte_exec(fnv_byte_exec(fnv_byte_exec(h, b0), b1), b2), b3)
}

/// Computes the digest of `s`, exactly [`text_digest`].
pub fn text_digest_exec(s: &str) -> (r: u64)
    ensures
        r == text_digest(s@),
{
    let n = s.unicode_len();
    let mut h: u64 = FNV_OFFSET;
    let mut i: usize = 0;
    while i < n
        invariant
            0 <= i <= n,
            n == s@.len(),
            fnv_from(s@, i as int, h) == text_digest(s@),
        decreases n - i,
    {
        h = fnv_char_exec(h, s.get_char(i));
        i = i + 1;
    }
    h
}

} // verus!
