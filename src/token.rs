use core::convert::Infallible;
use core::num::ParseIntError;
use core::str::ParseBoolError;
use core::char::ParseCharError;
use vstd::prelude::*;

verus! {

#[verifier::external_type_specification]
#[verifier::external_body]
pub struct ExParseIntError(ParseIntError);

#[verifier::external_type_specification]
#[verifier::external_body]
pub struct ExParseBoolError(ParseBoolError);

#[verifier::external_type_specification]
#[verifier::external_body]
pub struct ExParseCharError(ParseCharError);

/// Whether `c` is one of the ASCII digits `0` to `9`.
pub open spec fn is_digit(c: char) -> bool {
    '0' <= c && c <= '9'
}

/// Whether `s` is one decimal digit or more, and nothing else.
pub open spec fn all_digits(s: Seq<char>) -> bool {
    s.len() > 0 && forall|i: int| 0 <= i < s.len() ==> is_digit(#[trigger] s[i])
}

/// The number that a run of decimal digits writes.
pub open spec fn digits_value(s: Seq<char>) -> int
    decreases s.len(),
{
    if s.len() == 0 {
        0
    } else {
        digits_value(s.drop_last()) * 10 + (s.last() as int - '0' as int)
    }
}

/// The integer that `s` writes in decimal: an optional sign followed by one
/// digit or more, nothing before or after; a `-` sign only where `signed`.
pub open spec fn decimal(s: Seq<char>, signed: bool) -> Option<int> {
    if s.len() > 0 && s[0] == '+' && all_digits(s.drop_first()) {
        Some(digits_value(s.drop_first()))
    } else if signed && s.len() > 0 && s[0] == '-' && all_digits(s.drop_first()) {
        Some(-digits_value(s.drop_first()))
    } else if all_digits(s) {
        Some(digits_value(s))
    } else {
        None
    }
}

/// Whether `s` writes in decimal an integer from `lo` to `hi`.
pub open spec fn decimal_in(s: Seq<char>, signed: bool, lo: int, hi: int) -> bool {
    decimal(s, signed) matches Some(n) && lo <= n <= hi
}

/// The ten decimal digits, in order.
pub open spec fn digit_chars() -> Seq<char> {
    seq!['0', '1', '2', '3', '4', '5', '6', '7', '8', '9']
}

/// The decimal digits of `n`, most significant first, without leading zeros.
pub open spec fn digits_of(n: nat) -> Seq<char>
    decreases n,
{
    if n < 10 {
        seq![digit_chars()[n as int]]
    } else {
        digits_of(n / 10).push(digit_chars()[(n % 10) as int])
    }
}

/// How an integer is written out: its digits, after a `-` where it is negative.
pub open spec fn decimal_text(n: int) -> Seq<char> {
    if n < 0 {
        seq!['-'] + digits_of((-n) as nat)
    } else {
        digits_of(n as nat)
    }
}

proof fn lemma_digits_of(n: nat)
    ensures
        all_digits(digits_of(n)),
        digits_value(digits_of(n)) == n,
    decreases n,
{
    let d = digit_chars();
    assert(forall|k: int| 0 <= k < 10 ==> is_digit(#[trigger] d[k]) && d[k] as int - '0' as int == k)
        by {
        assert(d[0] == '0' && d[1] == '1' && d[2] == '2' && d[3] == '3' && d[4] == '4');
        assert(d[5] == '5' && d[6] == '6' && d[7] == '7' && d[8] == '8' && d[9] == '9');
        assert forall|k: int| 0 <= k < 10 implies is_digit(#[trigger] d[k]) && d[k] as int - '0' as int
            == k by {
            if k == 0 {
            } else if k == 1 {
            } else if k == 2 {
            } else if k == 3 {
            } else if k == 4 {
            } else if k == 5 {
            } else if k == 6 {
            } else if k == 7 {
            } else if k == 8 {
            } else {
            }
        }
    }
    if n < 10 {
        let s = digits_of(n);
        assert(s.drop_last() =~= Seq::<char>::empty());
        assert(digits_value(s.drop_last()) == 0);
        assert(s.last() == d[n as int]);
    } else {
        lemma_digits_of(n / 10);
        let s = digits_of(n);
        assert(s.drop_last() =~= digits_of(n / 10));
        assert(forall|i: int| 0 <= i < s.len() - 1 ==> s[i] == digits_of(n / 10)[i]);
        assert(s.last() == d[(n % 10) as int]);
        assert(digits_value(s) == digits_value(digits_of(n / 10)) * 10 + (s.last() as int - '0' as int));
        assert(n == (n / 10) * 10 + n % 10) by (nonlinear_arith);
    }
}

/// An integer written out in decimal reads back as itself; a negative one
/// only where a sign is allowed.
pub proof fn lemma_decimal_round_trip(n: int, signed: bool)
    requires
        signed || n >= 0,
    ensures
        decimal(decimal_text(n), signed) == Some(n),
        crate::text::is_word(decimal_text(n)),
{
    if n < 0 {
        let m = (-n) as nat;
        lemma_digits_of(m);
        let s = decimal_text(n);
        assert(s.drop_first() =~= digits_of(m));
        assert(is_digit(digits_of(m)[0]));
        assert(forall|i: int| 0 < i < s.len() ==> s[i] == digits_of(m)[i - 1]);
    } else {
        lemma_digits_of(n as nat);
        let s = decimal_text(n);
        assert(is_digit(s[0]));
    }
}

/// A type whose values are written as single tokens.
pub trait FromToken: Sized {
    type Err;

    /// Whether the token `t` writes a value of this type.
    spec fn accepts(t: Seq<char>) -> bool;

    /// Whether `v` is the value that the token `t` writes.
    spec fn written_by(t: Seq<char>, v: Self) -> bool;

    /// Whether `e` is an error that decoding the token `t` may give.
    spec fn rejects(t: Seq<char>, e: Self::Err) -> bool;

    /// Decodes one token.
    fn from_token(t: &str) -> (r: Result<Self, Self::Err>)
        ensures
            r is Ok <==> Self::accepts(t@),
            r matches Ok(v) ==> Self::written_by(t@, v),
            r matches Err(e) ==> Self::rejects(t@, e),
    ;
}

/// Relies on `u8::from_str`: an optional `+` and decimal digits, whose value fits.
#[verifier::external_body]
fn parse_u8(t: &str) -> (r: Result<u8, ParseIntError>)
    ensures
        r is Ok <==> decimal_in(t@, false, 0, u8::MAX as int),
        r matches Ok(v) ==> decimal(t@, false) == Some(v as int),
{
    t.parse::<u8>()
}

impl FromToken for u8 {
    type Err = ParseIntError;

    open spec fn accepts(t: Seq<char>) -> bool {
        decimal_in(t, false, 0, u8::MAX as int)
    }

    open spec fn written_by(t: Seq<char>, v: u8) -> bool {
        decimal(t, false) == Some(v as int)
    }

    /// What std documents of its error is only that the token was not accepted.
    open spec fn rejects(t: Seq<char>, e: ParseIntError) -> bool {
        !Self::accepts(t)
    }

    fn from_token(t: &str) -> (r: Result<u8, ParseIntError>) {
        parse_u8(t)
    }
}

/// Relies on `u16::from_str`: an optional `+` and decimal digits, whose value fits.
#[verifier::external_body]
fn parse_u16(t: &str) -> (r: Result<u16, ParseIntError>)
    ensures
        r is Ok <==> decimal_in(t@, false, 0, u16::MAX as int),
        r matches Ok(v) ==> decimal(t@, false) == Some(v as int),
{
    t.parse::<u16>()
}

impl FromToken for u16 {
    type Err = ParseIntError;

    open spec fn accepts(t: Seq<char>) -> bool {
        decimal_in(t, false, 0, u16::MAX as int)
    }

    open spec fn written_by(t: Seq<char>, v: u16) -> bool {
        decimal(t, false) == Some(v as int)
    }

    /// What std documents of its error is only that the token was not accepted.
    open spec fn rejects(t: Seq<char>, e: ParseIntError) -> bool {
        !Self::accepts(t)
    }

    fn from_token(t: &str) -> (r: Result<u16, ParseIntError>) {
        parse_u16(t)
    }
}

/// Relies on `u32::from_str`: an optional `+` and decimal digits, whose value fits.
#[verifier::external_body]
fn parse_u32(t: &str) -> (r: Result<u32, ParseIntError>)
    ensures
        r is Ok <==> decimal_in(t@, false, 0, u32::MAX as int),
        r matches Ok(v) ==> decimal(t@, false) == Some(v as int),
{
    t.parse::<u32>()
}

impl FromToken for u32 {
    type Err = ParseIntError;

    open spec fn accepts(t: Seq<char>) -> bool {
        decimal_in(t, false, 0, u32::MAX as int)
    }

    open spec fn written_by(t: Seq<char>, v: u32) -> bool {
        decimal(t, false) == Some(v as int)
    }

    /// What std documents of its error is only that the token was not accepted.
    open spec fn rejects(t: Seq<char>, e: ParseIntError) -> bool {
        !Self::accepts(t)
    }

    fn from_token(t: &str) -> (r: Result<u32, ParseIntError>) {
        parse_u32(t)
    }
}

/// Relies on `u64::from_str`: an optional `+` and decimal digits, whose value fits.
#[verifier::external_body]
fn parse_u64(t: &str) -> (r: Result<u64, ParseIntError>)
    ensures
        r is Ok <==> decimal_in(t@, false, 0, u64::MAX as int),
        r matches Ok(v) ==> decimal(t@, false) == Some(v as int),
{
    t.parse::<u64>()
}

impl FromToken for u64 {
    type Err = ParseIntError;

    open spec fn accepts(t: Seq<char>) -> bool {
        decimal_in(t, false, 0, u64::MAX as int)
    }

    open spec fn written_by(t: Seq<char>, v: u64) -> bool {
        decimal(t, false) == Some(v as int)
    }

    /// What std documents of its error is only that the token was not accepted.
    open spec fn rejects(t: Seq<char>, e: ParseIntError) -> bool {
        !Self::accepts(t)
    }

    fn from_token(t: &str) -> (r: Result<u64, ParseIntError>) {
        parse_u64(t)
    }
}

/// Relies on `u128::from_str`: an optional `+` and decimal digits, whose value fits.
#[verifier::external_body]
fn parse_u128(t: &str) -> (r: Result<u128, ParseIntError>)
    ensures
        r is Ok <==> decimal_in(t@, false, 0, u128::MAX as int),
        r matches Ok(v) ==> decimal(t@, false) == Some(v as int),
{
    t.parse::<u128>()
}

impl FromToken for u128 {
    type Err = ParseIntError;

    open spec fn accepts(t: Seq<char>) -> bool {
        decimal_in(t, false, 0, u128::MAX as int)
    }

    open spec fn written_by(t: Seq<char>, v: u128) -> bool {
        decimal(t, false) == Some(v as int)
    }

    /// What std documents of its error is only that the token was not accepted.
    open spec fn rejects(t: Seq<char>, e: ParseIntError) -> bool {
        !Self::accepts(t)
    }

    fn from_token(t: &str) -> (r: Result<u128, ParseIntError>) {
        parse_u128(t)
    }
}

/// Relies on `usize::from_str`: an optional `+` and decimal digits, whose value fits.
#[verifier::external_body]
fn parse_usize(t: &str) -> (r: Result<usize, ParseIntError>)
    ensures
        r is Ok <==> decimal_in(t@, false, 0, usize::MAX as int),
        r matches Ok(v) ==> decimal(t@, false) == Some(v as int),
{
    t.parse::<usize>()
}

impl FromToken for usize {
    type Err = ParseIntError;

    open spec fn accepts(t: Seq<char>) -> bool {
        decimal_in(t, false, 0, usize::MAX as int)
    }

    open spec fn written_by(t: Seq<char>, v: usize) -> bool {
        decimal(t, false) == Some(v as int)
    }

    /// What std documents of its error is only that the token was not accepted.
    open spec fn rejects(t: Seq<char>, e: ParseIntError) -> bool {
        !Self::accepts(t)
    }

    fn from_token(t: &str) -> (r: Result<usize, ParseIntError>) {
        parse_usize(t)
    }
}

/// Relies on `i8::from_str`: an optional `+` or `-` and decimal digits, whose value fits.
#[verifier::external_body]
fn parse_i8(t: &str) -> (r: Result<i8, ParseIntError>)
    ensures
        r is Ok <==> decimal_in(t@, true, i8::MIN as int, i8::MAX as int),
        r matches Ok(v) ==> decimal(t@, true) == Some(v as int),
{
    t.parse::<i8>()
}

impl FromToken for i8 {
    type Err = ParseIntError;

    open spec fn accepts(t: Seq<char>) -> bool {
        decimal_in(t, true, i8::MIN as int, i8::MAX as int)
    }

    open spec fn written_by(t: Seq<char>, v: i8) -> bool {
        decimal(t, true) == Some(v as int)
    }

    /// What std documents of its error is only that the token was not accepted.
    open spec fn rejects(t: Seq<char>, e: ParseIntError) -> bool {
        !Self::accepts(t)
    }

    fn from_token(t: &str) -> (r: Result<i8, ParseIntError>) {
        parse_i8(t)
    }
}

/// Relies on `i16::from_str`: an optional `+` or `-` and decimal digits, whose value fits.
#[verifier::external_body]
fn parse_i16(t: &str) -> (r: Result<i16, ParseIntError>)
    ensures
        r is Ok <==> decimal_in(t@, true, i16::MIN as int, i16::MAX as int),
        r matches Ok(v) ==> decimal(t@, true) == Some(v as int),
{
    t.parse::<i16>()
}

impl FromToken for i16 {
    type Err = ParseIntError;

    open spec fn accepts(t: Seq<char>) -> bool {
        decimal_in(t, true, i16::MIN as int, i16::MAX as int)
    }

    open spec fn written_by(t: Seq<char>, v: i16) -> bool {
        decimal(t, true) == Some(v as int)
    }

    /// What std documents of its error is only that the token was not accepted.
    open spec fn rejects(t: Seq<char>, e: ParseIntError) -> bool {
        !Self::accepts(t)
    }

    fn from_token(t: &str) -> (r: Result<i16, ParseIntError>) {
        parse_i16(t)
    }
}

/// Relies on `i32::from_str`: an optional `+` or `-` and decimal digits, whose value fits.
#[verifier::external_body]
fn parse_i32(t: &str) -> (r: Result<i32, ParseIntError>)
    ensures
        r is Ok <==> decimal_in(t@, true, i32::MIN as int, i32::MAX as int),
        r matches Ok(v) ==> decimal(t@, true) == Some(v as int),
{
    t.parse::<i32>()
}

impl FromToken for i32 {
    type Err = ParseIntError;

    open spec fn accepts(t: Seq<char>) -> bool {
        decimal_in(t, true, i32::MIN as int, i32::MAX as int)
    }

    open spec fn written_by(t: Seq<char>, v: i32) -> bool {
        decimal(t, true) == Some(v as int)
    }

    /// What std documents of its error is only that the token was not accepted.
    open spec fn rejects(t: Seq<char>, e: ParseIntError) -> bool {
        !Self::accepts(t)
    }

    fn from_token(t: &str) -> (r: Result<i32, ParseIntError>) {
        parse_i32(t)
    }
}

/// Relies on `i64::from_str`: an optional `+` or `-` and decimal digits, whose value fits.
#[verifier::external_body]
fn parse_i64(t: &str) -> (r: Result<i64, ParseIntError>)
    ensures
        r is Ok <==> decimal_in(t@, true, i64::MIN as int, i64::MAX as int),
        r matches Ok(v) ==> decimal(t@, true) == Some(v as int),
{
    t.parse::<i64>()
}

impl FromToken for i64 {
    type Err = ParseIntError;

    open spec fn accepts(t: Seq<char>) -> bool {
        decimal_in(t, true, i64::MIN as int, i64::MAX as int)
    }

    open spec fn written_by(t: Seq<char>, v: i64) -> bool {
        decimal(t, true) == Some(v as int)
    }

    /// What std documents of its error is only that the token was not accepted.
    open spec fn rejects(t: Seq<char>, e: ParseIntError) -> bool {
        !Self::accepts(t)
    }

    fn from_token(t: &str) -> (r: Result<i64, ParseIntError>) {
        parse_i64(t)
    }
}

/// Relies on `i128::from_str`: an optional `+` or `-` and decimal digits, whose value fits.
#[verifier::external_body]
fn parse_i128(t: &str) -> (r: Result<i128, ParseIntError>)
    ensures
        r is Ok <==> decimal_in(t@, true, i128::MIN as int, i128::MAX as int),
        r matches Ok(v) ==> decimal(t@, true) == Some(v as int),
{
    t.parse::<i128>()
}

impl FromToken for i128 {
    type Err = ParseIntError;

    open spec fn accepts(t: Seq<char>) -> bool {
        decimal_in(t, true, i128::MIN as int, i128::MAX as int)
    }

    open spec fn written_by(t: Seq<char>, v: i128) -> bool {
        decimal(t, true) == Some(v as int)
    }

    /// What std documents of its error is only that the token was not accepted.
    open spec fn rejects(t: Seq<char>, e: ParseIntError) -> bool {
        !Self::accepts(t)
    }

    fn from_token(t: &str) -> (r: Result<i128, ParseIntError>) {
        parse_i128(t)
    }
}

/// Relies on `isize::from_str`: an optional `+` or `-` and decimal digits, whose value fits.
#[verifier::external_body]
fn parse_isize(t: &str) -> (r: Result<isize, ParseIntError>)
    ensures
        r is Ok <==> decimal_in(t@, true, isize::MIN as int, isize::MAX as int),
        r matches Ok(v) ==> decimal(t@, true) == Some(v as int),
{
    t.parse::<isize>()
}

impl FromToken for isize {
    type Err = ParseIntError;

    open spec fn accepts(t: Seq<char>) -> bool {
        decimal_in(t, true, isize::MIN as int, isize::MAX as int)
    }

    open spec fn written_by(t: Seq<char>, v: isize) -> bool {
        decimal(t, true) == Some(v as int)
    }

    /// What std documents of its error is only that the token was not accepted.
    open spec fn rejects(t: Seq<char>, e: ParseIntError) -> bool {
        !Self::accepts(t)
    }

    fn from_token(t: &str) -> (r: Result<isize, ParseIntError>) {
        parse_isize(t)
    }
}

/// Relies on `bool::from_str`: exactly `true` or `false`.
#[verifier::external_body]
fn parse_bool(t: &str) -> (r: Result<bool, ParseBoolError>)
    ensures
        r is Ok <==> (t@ == "true"@ || t@ == "false"@),
        r matches Ok(v) ==> (v <==> t@ == "true"@),
{
    t.parse::<bool>()
}

impl FromToken for bool {
    type Err = ParseBoolError;

    open spec fn accepts(t: Seq<char>) -> bool {
        t == "true"@ || t == "false"@
    }

    open spec fn written_by(t: Seq<char>, v: bool) -> bool {
        v <==> t == "true"@
    }

    open spec fn rejects(t: Seq<char>, e: ParseBoolError) -> bool {
        !Self::accepts(t)
    }

    fn from_token(t: &str) -> (r: Result<bool, ParseBoolError>) {
        parse_bool(t)
    }
}

/// Relies on `char::from_str`: exactly one character.
#[verifier::external_body]
fn parse_char(t: &str) -> (r: Result<char, ParseCharError>)
    ensures
        r is Ok <==> t@.len() == 1,
        r matches Ok(v) ==> t@ == seq![v],
{
    t.parse::<char>()
}

impl FromToken for char {
    type Err = ParseCharError;

    open spec fn accepts(t: Seq<char>) -> bool {
        t.len() == 1
    }

    open spec fn written_by(t: Seq<char>, v: char) -> bool {
        t == seq![v]
    }

    open spec fn rejects(t: Seq<char>, e: ParseCharError) -> bool {
        !Self::accepts(t)
    }

    fn from_token(t: &str) -> (r: Result<char, ParseCharError>) {
        parse_char(t)
    }
}

impl FromToken for String {
    type Err = Infallible;

    open spec fn accepts(t: Seq<char>) -> bool {
        true
    }

    open spec fn written_by(t: Seq<char>, v: String) -> bool {
        v@ == t
    }

    open spec fn rejects(t: Seq<char>, e: Infallible) -> bool {
        false
    }

    fn from_token(t: &str) -> (r: Result<String, Infallible>) {
        Ok(t.to_owned())
    }
}

} // verus!
