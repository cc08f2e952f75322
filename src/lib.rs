//! Decoding of whitespace delimited lines of text into typed values.
//!
//! A [`TokenReader`] hands out one line at a time; each line is split into
//! tokens at runs of whitespace, and the tokens are decoded by the
//! [`FromTokens`] implementation of the requested type.

mod as_tokens;
mod count;
mod error;
pub mod heap;
pub mod impls;
mod iter;
pub mod reader;
pub mod text;
pub mod token;

use vstd::prelude::*;

pub use as_tokens::AsTokens;
pub use count::LineCount;
pub use error::{ParseTokenPatternError, ReadLineError, ReadTokensError};
pub use heap::{HeapKey, MaxHeap};
pub use iter::{take_step, Take};
pub use reader::{decode_line, TokenReader};
pub use text::{tokens, views};
pub use token::FromToken;

verus! {

/// A type decodable from a sequence of whitespace delimited tokens.
///
/// Implementations are provided for tuples of up to 16 fields, for arrays,
/// and for `Vec`, `VecDeque`, `BTreeSet`, `HashSet` and [`MaxHeap`], over types that
/// implement [`FromToken`].
pub trait FromTokens: Sized {
    type Error;

    /// Whether `r` is what decoding the tokens `ts` gives.
    spec fn decodes(ts: Seq<Seq<char>>, r: Result<Self, Self::Error>) -> bool;

    /// Decodes a value from all of `tokens`.
    fn from_tokens(tokens: &[String]) -> (r: Result<Self, Self::Error>)
        ensures
            Self::decodes(views(tokens@), r),
    ;
}

} // verus!
