use vstd::prelude::*;

verus! {

/// The failure taxonomy of the library. Every fallible operation reports
/// exactly one of these; none is retried internally.
#[derive(Clone, Copy, Debug, PartialEq, Eq, Structural)]
pub enum ExtractError {
    /// The file extension is not in the static language table.
    UnsupportedLanguage,
    /// The underlying file could not be read.
    ReadFailure,
    /// The grammar could not produce a syntax tree for the source text.
    ParseFailure,
    /// A node's byte range is not valid text.
    TextDecodeFailure,
    /// Chunk-hash bounds are out of bounds or empty after clamping.
    InvalidRange,
}

impl ExtractError {
    /// A short diagnostic label for the failure.
    pub fn describe(&self) -> (r: &'static str)
        ensures
            r@ == match self {
                ExtractError::UnsupportedLanguage => "Unsupported file type"@,
                ExtractError::ReadFailure => "Failed to read file"@,
                ExtractError::ParseFailure => "Failed to parse file"@,
                ExtractError::TextDecodeFailure => "Invalid text in file"@,
                ExtractError::InvalidRange => "Invalid line range"@,
            },
    {
        match self {
            ExtractError::UnsupportedLanguage => "Unsupported file type",
            ExtractError::ReadFailure => "Failed to read file",
            ExtractError::ParseFailure => "Failed to parse file",
            ExtractError::TextDecodeFailure => "Invalid text in file",
            ExtractError::InvalidRange => "Invalid line range",
        }
    }
}

} // verus!
