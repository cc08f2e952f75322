use std::string::FromUtf8Error;
use vstd::prelude::*;
use vstd::slice::{slice_subrange, slice_to_vec};
use vstd::utf8::{decode_utf8, valid_utf8};

use crate::text::split_tokens;
use crate::{tokens, FromTokens, LineCount, ReadLineError, ReadTokensError, Take};

verus! {

#[verifier::external_type_specification]
#[verifier::external_body]
pub struct ExFromUtf8Error(FromUtf8Error);

/// The byte that ends a line.
pub const LINE_FEED: u8 = 10;

/// The byte that may stand before a line feed and is then taken off the line.
pub const CARRIAGE_RETURN: u8 = 13;

/// The position of the first line feed in `s` at or after `i`, or the length
/// of `s` where there is none.
pub open spec fn line_feed_from(s: Seq<u8>, i: nat) -> nat
    decreases s.len() - i,
{
    if i >= s.len() {
        s.len()
    } else if s[i as int] == LINE_FEED {
        i
    } else {
        line_feed_from(s, i + 1)
    }
}

/// The next line of `s` with its terminator (a line feed, or a carriage
/// return and a line feed) taken off, and what follows it; `None` where `s`
/// is empty. A last line may lack the line feed.
pub open spec fn next_line(s: Seq<u8>) -> Option<(Seq<u8>, Seq<u8>)> {
    if s.len() == 0 {
        None
    } else {
        let e = line_feed_from(s, 0);
        if e < s.len() {
            let line = s.take(e as int);
            if line.len() > 0 && line.last() == CARRIAGE_RETURN {
                Some((line.drop_last(), s.skip(e + 1int)))
            } else {
                Some((line, s.skip(e + 1int)))
            }
        } else {
            Some((s, Seq::empty()))
        }
    }
}

/// Whether reading a raw line from the input `before` leaves `after` and
/// returns `r`.
pub open spec fn reads_line(before: Seq<u8>, after: Seq<u8>, r: Result<String, ReadLineError>) -> bool {
    match next_line(before) {
        None => after == before && r is Err && r->Err_0 is EndOfFile,
        Some((bytes, rest)) => after == rest && if valid_utf8(bytes) {
            r matches Ok(s) && s@ == decode_utf8(bytes)
        } else {
            r is Err && r->Err_0 is IoError
        },
    }
}

/// Whether `r` is what decoding the outcome `raw` of reading one line gives:
/// the end of the input and an input error pass through unchanged, and a line
/// that was read is split into tokens and decoded as `T`, a failure keeping
/// the line's text.
pub open spec fn decodes_line<T: FromTokens>(
    raw: Result<String, ReadLineError>,
    r: Result<T, ReadTokensError<T::Error>>,
) -> bool {
    match raw {
        Err(ReadLineError::EndOfFile) => r matches Err(ReadTokensError::EndOfFile),
        Err(ReadLineError::IoError { source }) => match r {
            Err(ReadTokensError::IoError { source: s }) => s == source,
            _ => false,
        },
        Ok(text) => match r {
            Ok(v) => T::decodes(tokens(text@), Ok(v)),
            Err(ReadTokensError::ParseError { source, line }) => line@ == text@ && T::decodes(
                tokens(text@),
                Err(source),
            ),
            _ => false,
        },
    }
}

/// Decodes one line read from any source, given as the outcome of that read.
pub fn decode_line<T: FromTokens>(raw: Result<String, ReadLineError>) -> (r: Result<
    T,
    ReadTokensError<T::Error>,
>)
    ensures
        decodes_line::<T>(raw, r),
{
    let text = match raw {
        Ok(text) => text,
        Err(e) => {
            return Err(ReadTokensError::from(e));
        },
    };
    let tokens = split_tokens(text.as_str());
    match T::from_tokens(tokens.as_slice()) {
        Ok(v) => Ok(v),
        Err(source) => Err(ReadTokensError::ParseError { source, line: text }),
    }
}

/// Whether reading a line of tokens decoded as `T` from the input `before`
/// leaves `after` and returns `r`.
pub open spec fn reads_record<T: FromTokens>(
    before: Seq<u8>,
    after: Seq<u8>,
    r: Result<T, ReadTokensError<T::Error>>,
) -> bool {
    match next_line(before) {
        None => after == before && r is Err && r->Err_0 is EndOfFile,
        Some((bytes, rest)) => after == rest && if valid_utf8(bytes) {
            let text = decode_utf8(bytes);
            match r {
                Ok(v) => T::decodes(tokens(text), Ok(v)),
                Err(ReadTokensError::ParseError { source, line }) => line@ == text && T::decodes(
                    tokens(text),
                    Err(source),
                ),
                _ => false,
            }
        } else {
            r is Err && r->Err_0 is IoError
        },
    }
}

/// Once the input is used up, every further read of a line of tokens returns
/// the end-of-file error and leaves the input used up.
pub proof fn lemma_end_of_input_repeats<T: FromTokens>(
    before: Seq<u8>,
    after: Seq<u8>,
    r: Result<T, ReadTokensError<T::Error>>,
)
    requires
        before.len() == 0,
        reads_record::<T>(before, after, r),
    ensures
        after.len() == 0,
        r matches Err(ReadTokensError::EndOfFile),
{
}

/// Reading a line of tokens leaves the same input whatever type the tokens are
/// decoded as, so reads through `Take` and direct reads walk the lines alike.
pub proof fn lemma_reads_consume_alike<T: FromTokens, U: FromTokens>(
    before: Seq<u8>,
    after_t: Seq<u8>,
    r_t: Result<T, ReadTokensError<T::Error>>,
    after_u: Seq<u8>,
    r_u: Result<U, ReadTokensError<U::Error>>,
)
    requires
        reads_record::<T>(before, after_t, r_t),
        reads_record::<U>(before, after_u, r_u),
    ensures
        after_t == after_u,
        (r_t is Err && r_t->Err_0 is EndOfFile) <==> (r_u is Err && r_u->Err_0 is EndOfFile),
{
}

/// Whether `rs` are the results of successive reads of lines of tokens
/// decoded as `T`, read `i` taking the input from `ins[i]` to `ins[i + 1]`.
pub open spec fn reads_records<T: FromTokens>(
    ins: Seq<Seq<u8>>,
    rs: Seq<Result<T, ReadTokensError<T::Error>>>,
) -> bool {
    &&& ins.len() == rs.len() + 1
    &&& forall|i: int| 0 <= i < rs.len() ==> reads_record::<T>(ins[i], ins[i + 1], #[trigger] rs[i])
}

/// Two runs of the same number of reads from the same input, one through
/// `Take` and one by direct calls of `line` (or both either way), pass through
/// the same inputs, each read ending at end of file in one run exactly where it
/// does in the other.
pub proof fn lemma_runs_alike<T: FromTokens, U: FromTokens>(
    a: Seq<Seq<u8>>,
    ra: Seq<Result<T, ReadTokensError<T::Error>>>,
    b: Seq<Seq<u8>>,
    rb: Seq<Result<U, ReadTokensError<U::Error>>>,
)
    requires
        reads_records::<T>(a, ra),
        reads_records::<U>(b, rb),
        ra.len() == rb.len(),
        a[0] == b[0],
    ensures
        a == b,
        forall|i: int|
            0 <= i < ra.len() ==> ((#[trigger] ra[i] is Err && ra[i]->Err_0 is EndOfFile) <==> (
            rb[i] is Err && rb[i]->Err_0 is EndOfFile)),
    decreases ra.len(),
{
    if ra.len() > 0 {
        let n = ra.len() - 1;
        let a0 = a.drop_last();
        let b0 = b.drop_last();
        assert forall|i: int| 0 <= i < ra.drop_last().len() implies reads_record::<T>(
            a0[i],
            a0[i + 1],
            #[trigger] ra.drop_last()[i],
        ) by {
            assert(reads_record::<T>(a[i], a[i + 1], ra[i]));
        }
        assert forall|i: int| 0 <= i < rb.drop_last().len() implies reads_record::<U>(
            b0[i],
            b0[i + 1],
            #[trigger] rb.drop_last()[i],
        ) by {
            assert(reads_record::<U>(b[i], b[i + 1], rb[i]));
        }
        lemma_runs_alike(a0, ra.drop_last(), b0, rb.drop_last());
        assert(reads_record::<T>(a[n], a[n + 1], ra[n]));
        assert(reads_record::<U>(b[n], b[n + 1], rb[n]));
        assert(a[n] == a0[n] && b[n] == b0[n]);
        assert(a[n] == b[n]);
        lemma_reads_consume_alike::<T, U>(a[n], a[n + 1], ra[n], b[n + 1], rb[n]);
        assert forall|i: int| 0 <= i < a.len() implies a[i] == b[i] by {
            if i <= n {
                assert(a[i] == a0[i] && b[i] == b0[i]);
            }
        }
        assert(a =~= b);
        assert forall|i: int| 0 <= i < ra.len() implies ((#[trigger] ra[i] is Err && ra[i]->Err_0 is EndOfFile)
            <==> (rb[i] is Err && rb[i]->Err_0 is EndOfFile)) by {
            if i < n {
                assert(ra[i] == ra.drop_last()[i] && rb[i] == rb.drop_last()[i]);
            }
        }
    } else {
        assert(a =~= b);
    }
}

/// Relies on `String::from_utf8`: the bytes become a string exactly when they
/// are valid UTF-8, and the string holds the characters they encode.
#[verifier::external_body]
fn utf8_string(bytes: Vec<u8>) -> (r: Result<String, FromUtf8Error>)
    ensures
        r is Ok <==> valid_utf8(bytes@),
        r matches Ok(s) ==> s@ == decode_utf8(bytes@),
{
    String::from_utf8(bytes)
}

/// Relies on `std::io::Error::new`: an error of kind `InvalidData`, which is
/// what a buffered reader reports for a line that is not UTF-8.
#[verifier::external_body]
fn invalid_data(e: FromUtf8Error) -> std::io::Error {
    std::io::Error::new(std::io::ErrorKind::InvalidData, e)
}

impl<'a> From<&'a [u8]> for TokenReader {
    /// Same as `TokenReader::new`.
    fn from(input: &'a [u8]) -> (r: Self)
        ensures
            r@ == input@,
    {
        TokenReader::new(input)
    }
}

impl<'a> vstd::std_specs::convert::FromSpecImpl<&'a [u8]> for TokenReader {
    open spec fn obeys_from_spec() -> bool {
        false
    }

    open spec fn from_spec(v: &'a [u8]) -> Self {
        arbitrary()
    }
}

/// Reads lines of whitespace delimited tokens, one at a time, from input
/// that is already in memory, such as a string. A stream is read line by line
/// elsewhere, and each line handed to `decode_line`.
#[derive(Debug)]
pub struct TokenReader {
    input: Vec<u8>,
    pos: usize,
}

impl View for TokenReader {
    type V = Seq<u8>;

    /// The input that is left to read.
    closed spec fn view(&self) -> Seq<u8> {
        self.input@.subrange(self.pos as int, self.input@.len() as int)
    }
}

impl TokenReader {
    #[verifier::type_invariant]
    spec fn inv(&self) -> bool {
        self.pos <= self.input@.len()
    }

    /// Creates a reader over the bytes of `input`.
    pub fn new(input: &[u8]) -> (r: Self)
        ensures
            r@ == input@,
    {
        let r = TokenReader { input: slice_to_vec(input), pos: 0 };
        assert(r@ =~= input@);
        r
    }

    /// Reads and decodes a single line of whitespace delimited tokens.
    pub fn line<T: FromTokens>(&mut self) -> (r: Result<T, ReadTokensError<T::Error>>)
        ensures
            reads_record::<T>(old(self)@, final(self)@, r),
    {
        decode_line(self.line_raw())
    }

    /// Reads a single line, unmodified but for its terminator.
    pub fn line_raw(&mut self) -> (r: Result<String, ReadLineError>)
        ensures
            reads_line(old(self)@, final(self)@, r),
    {
        proof {
            use_type_invariant(&*self);
        }
        let ghost rest = self@;
        let len = self.input.len();
        if self.pos >= len {
            return Err(ReadLineError::EndOfFile);
        }
        let start = self.pos;
        let mut e = start;
        while e < len && self.input[e] != LINE_FEED
            invariant
                start <= e <= len,
                len == self.input@.len(),
                rest == self.input@.subrange(start as int, len as int),
                line_feed_from(rest, 0) == line_feed_from(rest, (e - start) as nat),
            decreases len - e,
        {
            assert(rest[e - start] == self.input@[e as int]);
            e = e + 1;
        }
        let mut stop = e;
        if e < len {
            assert(rest[e - start] == self.input@[e as int]);
            if e > start && self.input[e - 1] == CARRIAGE_RETURN {
                stop = e - 1;
            }
            self.pos = e + 1;
        } else {
            self.pos = len;
        }
        let bytes = slice_to_vec(slice_subrange(self.input.as_slice(), start, stop));
        assert(next_line(rest) is Some);
        assert(bytes@ =~= next_line(rest)->Some_0.0);
        assert(self@ =~= next_line(rest)->Some_0.1);
        match utf8_string(bytes) {
            Ok(text) => Ok(text),
            Err(e) => Err(ReadLineError::IoError { source: invalid_data(e) }),
        }
    }

    /// Creates a reader of the next `count` lines, each decoded as `T`.
    pub fn take<'a, T: FromTokens>(&'a mut self, count: usize) -> (r: Take<'a, T, usize>)
        ensures
            r.remaining() == count,
            r.input() == old(self)@,
    {
        Take::new(self, count)
    }

    /// Like `take`, with the count in any unsigned integer type.
    pub fn take_count<'a, T: FromTokens, S: LineCount>(&'a mut self, count: S) -> (r: Take<'a, T, S>)
        ensures
            r.remaining() == count.count(),
            r.input() == old(self)@,
    {
        Take::new(self, count)
    }
}

} // verus!
