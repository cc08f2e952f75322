use vstd::prelude::*;

use crate::text::split_tokens;
use crate::{tokens, views, FromTokens};

verus! {

/// Text that can be split into whitespace delimited tokens.
pub trait AsTokens {
    /// The characters of the text.
    spec fn text(&self) -> Seq<char>;

    /// The tokens of the text, left to right.
    fn as_tokens(&self) -> (r: Vec<String>)
        ensures
            views(r@) == tokens(self.text()),
    ;

    /// Decodes all tokens of the text as a `T`.
    fn parse_tokens<T: FromTokens>(&self) -> (r: Result<T, T::Error>)
        ensures
            T::decodes(tokens(self.text()), r),
    {
        let ts = self.as_tokens();
        T::from_tokens(ts.as_slice())
    }
}

impl AsTokens for str {
    open spec fn text(&self) -> Seq<char> {
        self@
    }

    /// Splits the string at any whitespace, line breaks included.
    fn as_tokens(&self) -> (r: Vec<String>) {
        split_tokens(self)
    }
}

} // verus!
