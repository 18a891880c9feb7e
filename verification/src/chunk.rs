use vstd::prelude::*;

use crate::error::ExtractError;
use crate::text::{
    hex_seq, join_lines, join_range, lemma_line_count, split_lines, split_lines_str, text_digest,
    text_digest_exec, u64_to_hex,
};

verus! {

/// The clamped 0-based half-open line range a chunk request selects over
/// `total` lines: the 1-based start defaults to 1 and is raised to at
/// least 1; the 1-based end defaults to the line count and is lowered to
/// at most it.
pub open spec fn clamped_range(total: int, start_line: Option<i32>, end_line: Option<i32>) -> (
    int,
    int,
) {
    let s0 = match start_line {
        Some(v) => v as int,
        None => 1,
    };
    let s1 = if s0 < 1 {
        1
    } else {
        s0
    };
    let e0 = match end_line {
        Some(v) => v as int,
        None => total,
    };
    let e1 = if e0 > total {
        total
    } else {
        e0
    };
    (s1 - 1, e1)
}

/// Whether a clamped range selects a nonempty span of existing lines.
pub open spec fn range_ok(total: int, start: int, end: int) -> bool {
    start < total && start < end
}

/// The chunk hash of a text under optional 1-based inclusive bounds:
/// the selected lines joined with single newlines, digested, and the
/// digest rendered as lowercase hexadecimal; an invalid-range failure
/// exactly when the clamped range is out of bounds or empty.
pub open spec fn chunk_hash_spec(
    source: Seq<char>,
    start_line: Option<i32>,
    end_line: Option<i32>,
) -> Result<Seq<char>, ExtractError> {
    let lines = split_lines(source);
    let r = clamped_range(lines.len() as int, start_line, end_line);
    if !range_ok(lines.len() as int, r.0, r.1) {
        Err(ExtractError::InvalidRange)
    } else {
        Ok(hex_seq(text_digest(join_range(lines, r.0, r.1)) as int))
    }
}

/// Hashes a contiguous line range of `source`, exactly
/// [`chunk_hash_spec`]. The length bound keeps the line count
/// expressible in the request's 32-bit bounds.
pub fn get_chunk_hash(source: &str, start_line: Option<i32>, end_line: Option<i32>) -> (r: Result<
    String,
    ExtractError,
>)
    requires
        source@.len() < 0x8000_0000,
    ensures
        match chunk_hash_spec(source@, start_line, end_line) {
            Ok(h) => r is Ok && r->Ok_0@ == h,
            Err(e) => r == Err::<String, ExtractError>(e),
        },
{
    let lines = split_lines_str(source);
    proof {
        lemma_line_count(source@);
    }
    let total = lines.len();
    let s0: i32 = match start_line {
        Some(v) => v,
        None => 1,
    };
    let s1: i32 = if s0 < 1 {
        1
    } else {
        s0
    };
    let start: usize = (s1 - 1) as usize;
    let e0: i32 = match end_line {
        Some(v) => v,
        None => total as i32,
    };
    let e1: i32 = if e0 > total as i32 {
        total as i32
    } else {
        e0
    };
    if start >= total {
        return Err(ExtractError::InvalidRange);
    }
    if e1 < 1 || e1 as usize <= start {
        return Err(ExtractError::InvalidRange);
    }
    let end: usize = e1 as usize;
    let joined = join_lines(&lines, start, end);
    let digest = text_digest_exec(joined.as_str());
    Ok(u64_to_hex(digest))
}

/// The chunk hash is a function of the text and the bounds alone: equal
/// content under equal (or equivalently defaulted) bounds always yields
/// the same hex string, within and across processes.
pub proof fn lemma_chunk_hash_deterministic(
    a: Seq<char>,
    b: Seq<char>,
    start_a: Option<i32>,
    end_a: Option<i32>,
    start_b: Option<i32>,
    end_b: Option<i32>,
)
    requires
        a == b,
        start_a == start_b,
        end_a == end_b,
    ensures
        chunk_hash_spec(a, start_a, end_a) == chunk_hash_spec(b, start_b, end_b),
{
}

/// A request fails with an invalid-range error exactly when, after
/// clamping, the start falls beyond the text's lines or not before the
/// end; on every other input the hash is produced.
pub proof fn lemma_invalid_range_rejected(
    source: Seq<char>,
    start_line: Option<i32>,
    end_line: Option<i32>,
)
    ensures
        ({
            let lines = split_lines(source);
            let r = clamped_range(lines.len() as int, start_line, end_line);
            (r.0 >= lines.len() || r.0 >= r.1) <==> chunk_hash_spec(source, start_line, end_line)
                == Err::<Seq<char>, ExtractError>(ExtractError::InvalidRange)
        }),
{
}

} // verus!
