use arrayvec::ArrayVec;
use vstd::prelude::*;

use crate::impls::{fit, fit_from, lemma_fit_exact, lemma_fit_missing, lemma_fit_surplus, Fit};
use crate::text::{is_word, joined, lemma_tokens_of_joined};
use crate::token::{decimal_text, lemma_decimal_round_trip};
use crate::tokens;
use crate::{FromToken, FromTokens, ParseTokenPatternError};

verus! {

/// The largest array that arrayvec can fill.
pub const ARRAY_LIMIT: usize = 4294967295;

/// Relies on `arrayvec::ArrayVec`: collecting at most `N` items keeps them in
/// order (`FromIterator` panics only beyond `N`, and `new` beyond `u32::MAX`),
/// and `into_inner` gives the array exactly when all `N` places are filled.
#[verifier::external_body]
fn fill_array<T, const N: usize>(items: Vec<T>) -> (r: Option<[T; N]>)
    requires
        items@.len() <= N,
        N <= ARRAY_LIMIT,
    ensures
        r is Some <==> items@.len() == N,
        r matches Some(a) ==> a@ == items@,
{
    items.into_iter().collect::<ArrayVec<T, N>>().into_inner().ok()
}

/// Whether each of the first `n` tokens of `ts` is one that `T` accepts.
pub open spec fn accepted<T: FromToken>(ts: Seq<Seq<char>>, n: nat) -> Seq<bool> {
    Seq::new(n, |i: int| T::accepts(ts[i]))
}

impl<T: FromToken, const N: usize> FromTokens for [T; N] {
    type Error = ParseTokenPatternError<T::Err>;

    /// An array longer than arrayvec can hold is reported as more tokens than
    /// the largest array takes.
    open spec fn decodes(ts: Seq<Seq<char>>, r: Result<Self, Self::Error>) -> bool {
        match fit(N as nat, accepted::<T>(ts, N as nat), ts.len()) {
            Fit::Fits => if N <= ARRAY_LIMIT {
                match r {
                    Ok(a) => forall|i: int| 0 <= i < N ==> T::written_by(ts[i], #[trigger] a@[i]),
                    _ => false,
                }
            } else {
                match r {
                    Err(ParseTokenPatternError::TooManyTokens { expected }) => expected
                        == ARRAY_LIMIT,
                    _ => false,
                }
            },
            Fit::Unsuited(i) => match r {
                Err(ParseTokenPatternError::ParseError { source }) => T::rejects(ts[i], source),
                _ => false,
            },
            Fit::Missing(i) => match r {
                Err(ParseTokenPatternError::TooFewTokens { real: got, expected }) => got == i
                    && expected == N,
                _ => false,
            },
            Fit::Surplus => match r {
                Err(ParseTokenPatternError::TooManyTokens { expected }) => expected == N,
                _ => false,
            },
        }
    }

    fn from_tokens(tokens: &[String]) -> (r: Result<Self, Self::Error>) {
        let ghost ts = crate::views(tokens@);
        let ghost oks = accepted::<T>(ts, N as nat);
        let mut items: Vec<T> = Vec::new();
        let mut i: usize = 0;
        while i < N
            invariant
                i <= N,
                i <= tokens@.len(),
                ts == crate::views(tokens@),
                oks == accepted::<T>(ts, N as nat),
                items@.len() == i,
                forall|j: int| 0 <= j < i ==> T::written_by(ts[j], #[trigger] items@[j]),
                fit(N as nat, oks, ts.len()) == fit_from(N as nat, oks, ts.len(), i as nat),
            decreases N - i,
        {
            if i >= tokens.len() {
                return Err(ParseTokenPatternError::TooFewTokens { real: i, expected: N });
            }
            match T::from_token(tokens[i].as_str()) {
                Ok(v) => {
                    items.push(v);
                },
                Err(source) => {
                    return Err(ParseTokenPatternError::ParseError { source });
                },
            }
            i = i + 1;
        }
        if tokens.len() > N {
            return Err(ParseTokenPatternError::TooManyTokens { expected: N });
        }
        if N > ARRAY_LIMIT {
            return Err(ParseTokenPatternError::TooManyTokens { expected: ARRAY_LIMIT });
        }
        match fill_array::<T, N>(items) {
            Some(a) => Ok(a),
            None => Err(ParseTokenPatternError::TooFewTokens { real: i, expected: N }),
        }
    }
}

/// Exactly `N` tokens, each accepted: an array decodes, and its element `i`
/// is the value that token `i` writes.
pub proof fn lemma_array_exact<T: FromToken, const N: usize>(
    ts: Seq<Seq<char>>,
    r: Result<[T; N], ParseTokenPatternError<T::Err>>,
)
    requires
        ts.len() == N,
        N <= ARRAY_LIMIT,
        forall|i: int| 0 <= i < N ==> T::accepts(#[trigger] ts[i]),
        <[T; N] as FromTokens>::decodes(ts, r),
    ensures
        r matches Ok(a) && forall|i: int| 0 <= i < N ==> T::written_by(ts[i], #[trigger] a@[i]),
{
    lemma_fit_exact(N as nat, accepted::<T>(ts, N as nat), ts.len());
}

/// More than `N` tokens, the first `N` accepted: decoding an array fails with
/// too many tokens, `N` expected.
pub proof fn lemma_array_surplus<T: FromToken, const N: usize>(
    ts: Seq<Seq<char>>,
    r: Result<[T; N], ParseTokenPatternError<T::Err>>,
)
    requires
        ts.len() > N,
        forall|i: int| 0 <= i < N ==> T::accepts(#[trigger] ts[i]),
        <[T; N] as FromTokens>::decodes(ts, r),
    ensures
        r matches Err(ParseTokenPatternError::TooManyTokens { expected }) && expected == N,
{
    lemma_fit_surplus(N as nat, accepted::<T>(ts, N as nat), ts.len());
}

/// Fewer than `N` tokens, each accepted: decoding an array fails with too few
/// tokens, giving the number there are and `N`.
pub proof fn lemma_array_missing<T: FromToken, const N: usize>(
    ts: Seq<Seq<char>>,
    r: Result<[T; N], ParseTokenPatternError<T::Err>>,
)
    requires
        ts.len() < N,
        forall|i: int| 0 <= i < ts.len() ==> T::accepts(#[trigger] ts[i]),
        <[T; N] as FromTokens>::decodes(ts, r),
    ensures
        r matches Err(ParseTokenPatternError::TooFewTokens { real: got, expected }) && got
            == ts.len() && expected == N,
{
    lemma_fit_missing(N as nat, accepted::<T>(ts, N as nat), ts.len());
}

/// An array of integers written out with single spaces between them decodes
/// back into the same array.
pub proof fn lemma_array_round_trip<const N: usize>(
    a: [i64; N],
    r: Result<[i64; N], ParseTokenPatternError<core::num::ParseIntError>>,
)
    requires
        N <= ARRAY_LIMIT,
        <[i64; N] as FromTokens>::decodes(
            tokens(joined(Seq::new(N as nat, |i: int| decimal_text(a@[i] as int)))),
            r,
        ),
    ensures
        r matches Ok(b) && b@ == a@,
{
    let ws = Seq::new(N as nat, |i: int| decimal_text(a@[i] as int));
    assert forall|i: int| 0 <= i < ws.len() implies is_word(#[trigger] ws[i]) by {
        lemma_decimal_round_trip(a@[i] as int, true);
    }
    lemma_tokens_of_joined(ws);
    assert forall|i: int| 0 <= i < N implies <i64 as FromToken>::accepts(#[trigger] ws[i]) by {
        lemma_decimal_round_trip(a@[i] as int, true);
    }
    lemma_array_exact::<i64, N>(ws, r);
    let b = r->Ok_0;
    assert forall|i: int| 0 <= i < N implies b@[i] == a@[i] by {
        lemma_decimal_round_trip(a@[i] as int, true);
        assert(<i64 as FromToken>::written_by(ws[i], b@[i]));
    }
    assert(b@ =~= a@);
}

} // verus!
