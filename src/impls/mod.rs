//! Decoders of tuples, arrays and collections, and the errors of tuples.

use core::convert::Infallible;
use core::num::ParseIntError;
use vstd::prelude::*;

use crate::text::{all_space, is_word, joined, lemma_tokens_all_space, lemma_tokens_of_joined};
use crate::token::{decimal_text, lemma_decimal_round_trip};
use crate::{tokens, FromToken, FromTokens, ParseTokenPatternError};

mod array;
mod collections;
mod tuple;

pub use array::{
    accepted, lemma_array_exact, lemma_array_missing, lemma_array_round_trip, lemma_array_surplus,
    ARRAY_LIMIT,
};
pub use collections::{all_accepted, decodes_each, rejects_first, written_all};
pub use tuple::{
    ParseTuple0Error, ParseTuple1Error, ParseTuple2Error, ParseTuple3Error, ParseTuple4Error,
    ParseTuple5Error, ParseTuple6Error, ParseTuple7Error, ParseTuple8Error, ParseTuple9Error,
    ParseTuple10Error, ParseTuple11Error, ParseTuple12Error, ParseTuple13Error, ParseTuple14Error,
    ParseTuple15Error, ParseTuple16Error,
};

verus! {

/// How the tokens of a line meet a fixed number of positional fields.
pub enum Fit {
    /// One token for each field, and each suits its field.
    Fits,
    /// The token of this field is the first that does not suit its field.
    Unsuited(int),
    /// The tokens run out at this field, every earlier token suiting its field.
    Missing(int),
    /// Every field has a suitable token, and tokens are left over.
    Surplus,
}

/// Walks the fields from `i` on: `oks[j]` says whether token `j` suits field
/// `j`, and `len` is the number of tokens.
pub open spec fn fit_from(n: nat, oks: Seq<bool>, len: nat, i: nat) -> Fit
    decreases n - i,
{
    if i >= n {
        if len > n {
            Fit::Surplus
        } else {
            Fit::Fits
        }
    } else if i >= len {
        Fit::Missing(i as int)
    } else if !oks[i as int] {
        Fit::Unsuited(i as int)
    } else {
        fit_from(n, oks, len, i + 1)
    }
}

/// How `len` tokens meet `n` fields, walking the fields in order.
pub open spec fn fit(n: nat, oks: Seq<bool>, len: nat) -> Fit {
    fit_from(n, oks, len, 0)
}

proof fn lemma_fit_from_all_suit(n: nat, oks: Seq<bool>, len: nat, i: nat)
    requires
        i <= n,
        forall|j: int| i <= j < n && j < len ==> #[trigger] oks[j],
    ensures
        fit_from(n, oks, len, i) == (if len < i {
            fit_from(n, oks, len, i)
        } else if len < n {
            Fit::Missing(len as int)
        } else if len > n {
            Fit::Surplus
        } else {
            Fit::Fits
        }),
    decreases n - i,
{
    if i < n && i < len {
        lemma_fit_from_all_suit(n, oks, len, i + 1);
    }
}

/// Exactly one suitable token for each field: decoding succeeds.
pub proof fn lemma_fit_exact(n: nat, oks: Seq<bool>, len: nat)
    requires
        len == n,
        forall|j: int| 0 <= j < n ==> #[trigger] oks[j],
    ensures
        fit(n, oks, len) == Fit::Fits,
{
    lemma_fit_from_all_suit(n, oks, len, 0);
}

/// More tokens than fields, the first `n` suiting their fields: decoding fails
/// with too many tokens.
pub proof fn lemma_fit_surplus(n: nat, oks: Seq<bool>, len: nat)
    requires
        len > n,
        forall|j: int| 0 <= j < n ==> #[trigger] oks[j],
    ensures
        fit(n, oks, len) == Fit::Surplus,
{
    lemma_fit_from_all_suit(n, oks, len, 0);
}

/// Fewer tokens than fields, each suiting its field: decoding fails with too
/// few tokens, at the field where they run out.
pub proof fn lemma_fit_missing(n: nat, oks: Seq<bool>, len: nat)
    requires
        len < n,
        forall|j: int| 0 <= j < len ==> #[trigger] oks[j],
    ensures
        fit(n, oks, len) == Fit::Missing(len as int),
{
    lemma_fit_from_all_suit(n, oks, len, 0);
}

/// A line of whitespace alone, the empty line included, decodes as the empty
/// tuple.
pub proof fn lemma_blank_line_decodes_unit(
    line: Seq<char>,
    r: Result<(), ParseTokenPatternError<Infallible>>,
)
    requires
        all_space(line),
        <() as FromTokens>::decodes(tokens(line), r),
    ensures
        r is Ok,
{
    lemma_tokens_all_space(line);
}

/// A signed integer, an unsigned one and a word, written out with single
/// spaces between them, decode back into the same three values.
pub proof fn lemma_tuple_round_trip(
    a: i64,
    b: u64,
    c: String,
    r: Result<
        (i64, u64, String),
        ParseTokenPatternError<ParseTuple3Error<ParseIntError, ParseIntError, Infallible>>,
    >,
)
    requires
        is_word(c@),
        <(i64, u64, String) as FromTokens>::decodes(
            tokens(joined(seq![decimal_text(a as int), decimal_text(b as int), c@])),
            r,
        ),
    ensures
        r matches Ok(v) && v.0 == a && v.1 == b && v.2@ == c@,
{
    let ws = seq![decimal_text(a as int), decimal_text(b as int), c@];
    lemma_decimal_round_trip(a as int, true);
    lemma_decimal_round_trip(b as int, false);
    assert(forall|i: int| 0 <= i < ws.len() ==> is_word(#[trigger] ws[i]));
    lemma_tokens_of_joined(ws);
    lemma_fit_exact(3, seq![i64::accepts(ws[0]), u64::accepts(ws[1]), String::accepts(ws[2])], 3);
}

} // verus!
