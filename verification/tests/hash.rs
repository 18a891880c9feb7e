use rust_indexer::chunk::get_chunk_hash;
use rust_indexer::error::ExtractError;
use rust_indexer::parser::ParserService;
use rust_indexer::text::{text_digest_exec, u64_to_dec, u64_to_hex};

#[test]
fn hashing_is_deterministic() {
    let source = "alpha\nbeta\ngamma\n";
    let a = get_chunk_hash(source, None, None).unwrap();
    let b = get_chunk_hash(source, None, None).unwrap();
    assert_eq!(a, b);
    let c = get_chunk_hash(source, Some(2), Some(3)).unwrap();
    let d = get_chunk_hash(source, Some(2), Some(3)).unwrap();
    assert_eq!(c, d);
}

#[test]
fn default_bounds_equal_explicit_full_bounds() {
    let source = "one\ntwo\nthree";
    let implicit = get_chunk_hash(source, None, None).unwrap();
    let explicit = get_chunk_hash(source, Some(1), Some(3)).unwrap();
    assert_eq!(implicit, explicit);
    // a start below 1 is clamped up to 1
    let clamped = get_chunk_hash(source, Some(-7), Some(3)).unwrap();
    assert_eq!(implicit, clamped);
    // an end beyond the line count is clamped down to it
    let overlong = get_chunk_hash(source, Some(1), Some(99)).unwrap();
    assert_eq!(implicit, overlong);
}

#[test]
fn one_line_change_changes_the_hash() {
    let before = "one\ntwo\nthree";
    let after = "one\nTWO\nthree";
    assert_ne!(
        get_chunk_hash(before, None, None).unwrap(),
        get_chunk_hash(after, None, None).unwrap()
    );
}

#[test]
fn chunk_hash_matches_hash_of_the_selected_text() {
    // lines 2..=3 of the larger file hold exactly the smaller file's text
    let whole = "a\nb\nc\nd";
    let part = "b\nc";
    assert_eq!(
        get_chunk_hash(whole, Some(2), Some(3)).unwrap(),
        get_chunk_hash(part, None, None).unwrap()
    );
}

#[test]
fn crlf_line_endings_are_normalised() {
    let unix = "a\nb\n";
    let dos = "a\r\nb\r\n";
    assert_eq!(
        get_chunk_hash(unix, None, None).unwrap(),
        get_chunk_hash(dos, None, None).unwrap()
    );
}

#[test]
fn invalid_ranges_are_refused() {
    let source = "a\nb\nc";
    // start beyond the last line
    assert_eq!(
        get_chunk_hash(source, Some(4), None).unwrap_err(),
        ExtractError::InvalidRange
    );
    // start at or after end once clamped
    assert_eq!(
        get_chunk_hash(source, Some(2), Some(1)).unwrap_err(),
        ExtractError::InvalidRange
    );
    assert_eq!(
        get_chunk_hash(source, Some(3), Some(2)).unwrap_err(),
        ExtractError::InvalidRange
    );
    // a negative end survives no clamping
    assert_eq!(
        get_chunk_hash(source, Some(1), Some(-2)).unwrap_err(),
        ExtractError::InvalidRange
    );
    // an empty file has no selectable line
    assert_eq!(
        get_chunk_hash("", None, None).unwrap_err(),
        ExtractError::InvalidRange
    );
}

#[test]
fn a_single_line_selection_is_valid() {
    let source = "a\nb\nc";
    let one = get_chunk_hash(source, Some(2), Some(2)).unwrap();
    let alone = get_chunk_hash("b", None, None).unwrap();
    assert_eq!(one, alone);
}

#[test]
fn service_method_delegates_to_the_chunk_service() {
    let service = ParserService::new();
    let via_service = service.get_chunk_hash("x\ny", None, None).unwrap();
    let direct = get_chunk_hash("x\ny", None, None).unwrap();
    assert_eq!(via_service, direct);
}

#[test]
fn digest_and_renderings_have_exact_values() {
    // the digest of empty text is the FNV-1a offset basis
    assert_eq!(text_digest_exec(""), 0xcbf2_9ce4_8422_2325);
    assert_eq!(u64_to_hex(0xcbf2_9ce4_8422_2325), "cbf29ce484222325");
    assert_eq!(u64_to_hex(0), "0");
    assert_eq!(u64_to_hex(255), "ff");
    assert_eq!(u64_to_dec(0), "0");
    assert_eq!(u64_to_dec(10), "10");
    assert_eq!(u64_to_dec(90210), "90210");
}

#[test]
fn hashes_are_lowercase_hexadecimal() {
    let h = get_chunk_hash("alpha\nbeta", None, None).unwrap();
    assert!(!h.is_empty());
    assert!(h.chars().all(|c| c.is_ascii_digit() || ('a'..='f').contains(&c)));
}

#[test]
fn error_labels_are_stable() {
    assert_eq!(ExtractError::UnsupportedLanguage.describe(), "Unsupported file type");
    assert_eq!(ExtractError::ReadFailure.describe(), "Failed to read file");
    assert_eq!(ExtractError::ParseFailure.describe(), "Failed to parse file");
    assert_eq!(ExtractError::TextDecodeFailure.describe(), "Invalid text in file");
    assert_eq!(ExtractError::InvalidRange.describe(), "Invalid line range");
}
