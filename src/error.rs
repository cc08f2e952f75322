use vstd::prelude::*;

verus! {

#[verifier::external_type_specification]
#[verifier::external_body]
pub struct ExIoError(std::io::Error);

/// An error returned from `TokenReader::line`.
#[derive(Debug)]
#[allow(inconsistent_fields)]
pub enum ReadTokensError<E> {
    /// The input could not be read.
    IoError { source: std::io::Error },
    /// The input holds no further line.
    EndOfFile,
    /// A line was read, and its tokens did not decode; `line` is its text.
    ParseError { source: E, line: String },
}

/// An error returned from `TokenReader::line_raw`.
#[derive(Debug)]
#[allow(inconsistent_fields)]
pub enum ReadLineError {
    /// The input could not be read.
    IoError { source: std::io::Error },
    /// The input holds no further line.
    EndOfFile,
}

/// An error returned when a fixed number of tokens is decoded: a token fails
/// to decode, or there are too many or too few tokens.
#[derive(Debug)]
pub enum ParseTokenPatternError<E> {
    /// A token failed to decode.
    ParseError { source: E },
    /// More than `expected` tokens were given.
    TooManyTokens { expected: usize },
    /// `real` tokens were given where `expected` are needed.
    TooFewTokens { real: usize, expected: usize },
}

impl<E> From<ReadLineError> for ReadTokensError<E> {
    fn from(value: ReadLineError) -> Self {
        match value {
            ReadLineError::IoError { source } => ReadTokensError::IoError { source },
            ReadLineError::EndOfFile => ReadTokensError::EndOfFile,
        }
    }
}

impl<E> vstd::std_specs::convert::FromSpecImpl<ReadLineError> for ReadTokensError<E> {
    open spec fn obeys_from_spec() -> bool {
        true
    }

    open spec fn from_spec(v: ReadLineError) -> Self {
        match v {
            ReadLineError::IoError { source } => ReadTokensError::IoError { source },
            ReadLineError::EndOfFile => ReadTokensError::EndOfFile,
        }
    }
}

} // verus!
