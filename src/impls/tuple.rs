use core::convert::Infallible;
use vstd::prelude::*;

use crate::impls::{fit, fit_from, Fit};
use crate::{FromToken, FromTokens, ParseTokenPatternError};

verus! {
/// The error of a field of the empty tuple, which has none.
pub type ParseTuple0Error = Infallible;

impl FromTokens for () {
    type Error = ParseTokenPatternError<ParseTuple0Error>;

    open spec fn decodes(ts: Seq<Seq<char>>, r: Result<Self, Self::Error>) -> bool {
        match fit(0, Seq::<bool>::empty(), ts.len()) {
            Fit::Fits => r is Ok,
            Fit::Unsuited(i) => false,
            Fit::Missing(i) => match r {
                Err(ParseTokenPatternError::TooFewTokens { real: got, expected }) => got == i && expected
                    == 0,
                _ => false,
            },
            Fit::Surplus => match r {
                Err(ParseTokenPatternError::TooManyTokens { expected }) => expected == 0,
                _ => false,
            },
        }
    }

    fn from_tokens(tokens: &[String]) -> (r: Result<Self, Self::Error>) {
        proof {
            reveal_with_fuel(fit_from, 2);
        }
        if tokens.len() > 0 {
            return Err(ParseTokenPatternError::TooManyTokens { expected: 0 });
        }
        Ok(())
    }
}

/// The error of the field of a tuple of 1 that failed to decode.
#[derive(Debug)]
#[allow(inconsistent_fields)]
pub enum ParseTuple1Error<E0> {
    Field0 { source: E0 },
}

impl<T0: FromToken> FromTokens for (T0,) {
    type Error = ParseTokenPatternError<ParseTuple1Error<T0::Err>>;

    open spec fn decodes(ts: Seq<Seq<char>>, r: Result<Self, Self::Error>) -> bool {
        match fit(1, seq![T0::accepts(ts[0])], ts.len()) {
            Fit::Fits => match r {
                Ok(v) => T0::written_by(ts[0], v.0),
                _ => false,
            },
            Fit::Unsuited(i) => match r {
                Err(ParseTokenPatternError::ParseError { source }) => match source {
                    ParseTuple1Error::Field0 { source: e } => i == 0 && T0::rejects(ts[0], e),
                },
                _ => false,
            },
            Fit::Missing(i) => match r {
                Err(ParseTokenPatternError::TooFewTokens { real: got, expected }) => got == i && expected
                    == 1,
                _ => false,
            },
            Fit::Surplus => match r {
                Err(ParseTokenPatternError::TooManyTokens { expected }) => expected == 1,
                _ => false,
            },
        }
    }

    fn from_tokens(tokens: &[String]) -> (r: Result<Self, Self::Error>) {
        proof {
            reveal_with_fuel(fit_from, 3);
        }
        if tokens.len() <= 0 {
            return Err(ParseTokenPatternError::TooFewTokens { real: 0, expected: 1 });
        }
        let f0 = match T0::from_token(tokens[0].as_str()) {
            Ok(v) => v,
            Err(source) => {
                return Err(ParseTokenPatternError::ParseError { source: ParseTuple1Error::Field0 { source } });
            },
        };
        if tokens.len() > 1 {
            return Err(ParseTokenPatternError::TooManyTokens { expected: 1 });
        }
        Ok((f0,))
    }
}

/// The error of the field of a tuple of 2 that failed to decode.
#[derive(Debug)]
#[allow(inconsistent_fields)]
pub enum ParseTuple2Error<E0, E1> {
    Field0 { source: E0 },
    Field1 { source: E1 },
}

impl<T0: FromToken, T1: FromToken> FromTokens for (T0, T1) {
    type Error = ParseTokenPatternError<ParseTuple2Error<T0::Err, T1::Err>>;

    open spec fn decodes(ts: Seq<Seq<char>>, r: Result<Self, Self::Error>) -> bool {
        match fit(2, seq![T0::accepts(ts[0]), T1::accepts(ts[1])], ts.len()) {
            Fit::Fits => match r {
                Ok(v) => T0::written_by(ts[0], v.0) && T1::written_by(ts[1], v.1),
                _ => false,
            },
            Fit::Unsuited(i) => match r {
                Err(ParseTokenPatternError::ParseError { source }) => match source {
                    ParseTuple2Error::Field0 { source: e } => i == 0 && T0::rejects(ts[0], e),
                    ParseTuple2Error::Field1 { source: e } => i == 1 && T1::rejects(ts[1], e),
                },
                _ => false,
            },
            Fit::Missing(i) => match r {
                Err(ParseTokenPatternError::TooFewTokens { real: got, expected }) => got == i && expected
                    == 2,
                _ => false,
            },
            Fit::Surplus => match r {
                Err(ParseTokenPatternError::TooManyTokens { expected }) => expected == 2,
                _ => false,
            },
        }
    }

    fn from_tokens(tokens: &[String]) -> (r: Result<Self, Self::Error>) {
        proof {
            reveal_with_fuel(fit_from, 4);
        }
        if tokens.len() <= 0 {
            return Err(ParseTokenPatternError::TooFewTokens { real: 0, expected: 2 });
        }
        let f0 = match T0::from_token(tokens[0].as_str()) {
            Ok(v) => v,
            Err(source) => {
                return Err(ParseTokenPatternError::ParseError { source: ParseTuple2Error::Field0 { source } });
            },
        };
        if tokens.len() <= 1 {
            return Err(ParseTokenPatternError::TooFewTokens { real: 1, expected: 2 });
        }
        let f1 = match T1::from_token(tokens[1].as_str()) {
            Ok(v) => v,
            Err(source) => {
                return Err(ParseTokenPatternError::ParseError { source: ParseTuple2Error::Field1 { source } });
            },
        };
        if tokens.len() > 2 {
            return Err(ParseTokenPatternError::TooManyTokens { expected: 2 });
        }
        Ok((f0, f1))
    }
}

/// The error of the field of a tuple of 3 that failed to decode.
#[derive(Debug)]
#[allow(inconsistent_fields)]
pub enum ParseTuple3Error<E0, E1, E2> {
    Field0 { source: E0 },
    Field1 { source: E1 },
    Field2 { source: E2 },
}

impl<T0: FromToken, T1: FromToken, T2: FromToken> FromTokens for (T0, T1, T2) {
    type Error = ParseTokenPatternError<ParseTuple3Error<T0::Err, T1::Err, T2::Err>>;

    open spec fn decodes(ts: Seq<Seq<char>>, r: Result<Self, Self::Error>) -> bool {
        match fit(3, seq![T0::accepts(ts[0]), T1::accepts(ts[1]), T2::accepts(ts[2])], ts.len()) {
            Fit::Fits => match r {
                Ok(v) => T0::written_by(ts[0], v.0) && T1::written_by(ts[1], v.1) && T2::written_by(ts[2], v.2),
                _ => false,
            },
            Fit::Unsuited(i) => match r {
                Err(ParseTokenPatternError::ParseError { source }) => match source {
                    ParseTuple3Error::Field0 { source: e } => i == 0 && T0::rejects(ts[0], e),
                    ParseTuple3Error::Field1 { source: e } => i == 1 && T1::rejects(ts[1], e),
                    ParseTuple3Error::Field2 { source: e } => i == 2 && T2::rejects(ts[2], e),
                },
                _ => false,
            },
            Fit::Missing(i) => match r {
                Err(ParseTokenPatternError::TooFewTokens { real: got, expected }) => got == i && expected
                    == 3,
                _ => false,
            },
            Fit::Surplus => match r {
                Err(ParseTokenPatternError::TooManyTokens { expected }) => expected == 3,
                _ => false,
            },
        }
    }

    fn from_tokens(tokens: &[String]) -> (r: Result<Self, Self::Error>) {
        proof {
            reveal_with_fuel(fit_from, 5);
        }
        if tokens.len() <= 0 {
            return Err(ParseTokenPatternError::TooFewTokens { real: 0, expected: 3 });
        }
        let f0 = match T0::from_token(tokens[0].as_str()) {
            Ok(v) => v,
            Err(source) => {
                return Err(ParseTokenPatternError::ParseError { source: ParseTuple3Error::Field0 { source } });
            },
        };
        if tokens.len() <= 1 {
            return Err(ParseTokenPatternError::TooFewTokens { real: 1, expected: 3 });
        }
        let f1 = match T1::from_token(tokens[1].as_str()) {
            Ok(v) => v,
            Err(source) => {
                return Err(ParseTokenPatternError::ParseError { source: ParseTuple3Error::Field1 { source } });
            },
        };
        if tokens.len() <= 2 {
            return Err(ParseTokenPatternError::TooFewTokens { real: 2, expected: 3 });
        }
        let f2 = match T2::from_token(tokens[2].as_str()) {
            Ok(v) => v,
            Err(source) => {
                return Err(ParseTokenPatternError::ParseError { source: ParseTuple3Error::Field2 { source } });
            },
        };
        if tokens.len() > 3 {
            return Err(ParseTokenPatternError::TooManyTokens { expected: 3 });
        }
        Ok((f0, f1, f2))
    }
}

/// The error of the field of a tuple of 4 that failed to decode.
#[derive(Debug)]
#[allow(inconsistent_fields)]
pub enum ParseTuple4Error<E0, E1, E2, E3> {
    Field0 { source: E0 },
    Field1 { source: E1 },
    Field2 { source: E2 },
    Field3 { source: E3 },
}

impl<T0: FromToken, T1: FromToken, T2: FromToken, T3: FromToken> FromTokens for (T0, T1, T2, T3) {
    type Error = ParseTokenPatternError<ParseTuple4Error<T0::Err, T1::Err, T2::Err, T3::Err>>;

    open spec fn decodes(ts: Seq<Seq<char>>, r: Result<Self, Self::Error>) -> bool {
        match fit(4, seq![T0::accepts(ts[0]), T1::accepts(ts[1]), T2::accepts(ts[2]), T3::accepts(ts[3])], ts.len()) {
            Fit::Fits => match r {
                Ok(v) => T0::written_by(ts[0], v.0) && T1::written_by(ts[1], v.1) && T2::written_by(ts[2], v.2) && T3::written_by(ts[3], v.3),
                _ => false,
            },
            Fit::Unsuited(i) => match r {
                Err(ParseTokenPatternError::ParseError { source }) => match source {
                    ParseTuple4Error::Field0 { source: e } => i == 0 && T0::rejects(ts[0], e),
                    ParseTuple4Error::Field1 { source: e } => i == 1 && T1::rejects(ts[1], e),
                    ParseTuple4Error::Field2 { source: e } => i == 2 && T2::rejects(ts[2], e),
                    ParseTuple4Error::Field3 { source: e } => i == 3 && T3::rejects(ts[3], e),
                },
                _ => false,
            },
            Fit::Missing(i) => match r {
                Err(ParseTokenPatternError::TooFewTokens { real: got, expected }) => got == i && expected
                    == 4,
                _ => false,
            },
            Fit::Surplus => match r {
                Err(ParseTokenPatternError::TooManyTokens { expected }) => expected == 4,
                _ => false,
            },
        }
    }

    fn from_tokens(tokens: &[String]) -> (r: Result<Self, Self::Error>) {
        proof {
            reveal_with_fuel(fit_from, 6);
        }
        if tokens.len() <= 0 {
            return Err(ParseTokenPatternError::TooFewTokens { real: 0, expected: 4 });
        }
        let f0 = match T0::from_token(tokens[0].as_str()) {
            Ok(v) => v,
            Err(source) => {
                return Err(ParseTokenPatternError::ParseError { source: ParseTuple4Error::Field0 { source } });
            },
        };
        if tokens.len() <= 1 {
            return Err(ParseTokenPatternError::TooFewTokens { real: 1, expected: 4 });
        }
        let f1 = match T1::from_token(tokens[1].as_str()) {
            Ok(v) => v,
            Err(source) => {
                return Err(ParseTokenPatternError::ParseError { source: ParseTuple4Error::Field1 { source } });
            },
        };
        if tokens.len() <= 2 {
            return Err(ParseTokenPatternError::TooFewTokens { real: 2, expected: 4 });
        }
        let f2 = match T2::from_token(tokens[2].as_str()) {
            Ok(v) => v,
            Err(source) => {
                return Err(ParseTokenPatternError::ParseError { source: ParseTuple4Error::Field2 { source } });
            },
        };
        if tokens.len() <= 3 {
            return Err(ParseTokenPatternError::TooFewTokens { real: 3, expected: 4 });
        }
        let f3 = match T3::from_token(tokens[3].as_str()) {
            Ok(v) => v,
            Err(source) => {
                return Err(ParseTokenPatternError::ParseError { source: ParseTuple4Error::Field3 { source } });
            },
        };
        if tokens.len() > 4 {
            return Err(ParseTokenPatternError::TooManyTokens { expected: 4 });
        }
        Ok((f0, f1, f2, f3))
    }
}

/// The error of the field of a tuple of 5 that failed to decode.
#[derive(Debug)]
#[allow(inconsistent_fields)]
pub enum ParseTuple5Error<E0, E1, E2, E3, E4> {
    Field0 { source: E0 },
    Field1 { source: E1 },
    Field2 { source: E2 },
    Field3 { source: E3 },
    Field4 { source: E4 },
}

impl<T0: FromToken, T1: FromToken, T2: FromToken, T3: FromToken, T4: FromToken> FromTokens for (T0, T1, T2, T3, T4) {
    type Error = ParseTokenPatternError<ParseTuple5Error<T0::Err, T1::Err, T2::Err, T3::Err, T4::Err>>;

    open spec fn decodes(ts: Seq<Seq<char>>, r: Result<Self, Self::Error>) -> bool {
        match fit(5, seq![T0::accepts(ts[0]), T1::accepts(ts[1]), T2::accepts(ts[2]), T3::accepts(ts[3]), T4::accepts(ts[4])], ts.len()) {
            Fit::Fits => match r {
                Ok(v) => T0::written_by(ts[0], v.0) && T1::written_by(ts[1], v.1) && T2::written_by(ts[2], v.2) && T3::written_by(ts[3], v.3) && T4::written_by(ts[4], v.4),
                _ => false,
            },
            Fit::Unsuited(i) => match r {
                Err(ParseTokenPatternError::ParseError { source }) => match source {
                    ParseTuple5Error::Field0 { source: e } => i == 0 && T0::rejects(ts[0], e),
                    ParseTuple5Error::Field1 { source: e } => i == 1 && T1::rejects(ts[1], e),
                    ParseTuple5Error::Field2 { source: e } => i == 2 && T2::rejects(ts[2], e),
                    ParseTuple5Error::Field3 { source: e } => i == 3 && T3::rejects(ts[3], e),
                    ParseTuple5Error::Field4 { source: e } => i == 4 && T4::rejects(ts[4], e),
                },
                _ => false,
            },
            Fit::Missing(i) => match r {
                Err(ParseTokenPatternError::TooFewTokens { real: got, expected }) => got == i && expected
                    == 5,
                _ => false,
            },
            Fit::Surplus => match r {
                Err(ParseTokenPatternError::TooManyTokens { expected }) => expected == 5,
                _ => false,
            },
        }
    }

    fn from_tokens(tokens: &[String]) -> (r: Result<Self, Self::Error>) {
        proof {
            reveal_with_fuel(fit_from, 7);
        }
        if tokens.len() <= 0 {
            return Err(ParseTokenPatternError::TooFewTokens { real: 0, expected: 5 });
        }
        let f0 = match T0::from_token(tokens[0].as_str()) {
            Ok(v) => v,
            Err(source) => {
                return Err(ParseTokenPatternError::ParseError { source: ParseTuple5Error::Field0 { source } });
            },
        };
        if tokens.len() <= 1 {
            return Err(ParseTokenPatternError::TooFewTokens { real: 1, expected: 5 });
        }
        let f1 = match T1::from_token(tokens[1].as_str()) {
            Ok(v) => v,
            Err(source) => {
                return Err(ParseTokenPatternError::ParseError { source: ParseTuple5Error::Field1 { source } });
            },
        };
        if tokens.len() <= 2 {
            return Err(ParseTokenPatternError::TooFewTokens { real: 2, expected: 5 });
        }
        let f2 = match T2::from_token(tokens[2].as_str()) {
            Ok(v) => v,
            Err(source) => {
                return Err(ParseTokenPatternError::ParseError { source: ParseTuple5Error::Field2 { source } });
            },
        };
        if tokens.len() <= 3 {
            return Err(ParseTokenPatternError::TooFewTokens { real: 3, expected: 5 });
        }
        let f3 = match T3::from_token(tokens[3].as_str()) {
            Ok(v) => v,
            Err(source) => {
                return Err(ParseTokenPatternError::ParseError { source: ParseTuple5Error::Field3 { source } });
            },
        };
        if tokens.len() <= 4 {
            return Err(ParseTokenPatternError::TooFewTokens { real: 4, expected: 5 });
        }
        let f4 = match T4::from_token(tokens[4].as_str()) {
            Ok(v) => v,
            Err(source) => {
                return Err(ParseTokenPatternError::ParseError { source: ParseTuple5Error::Field4 { source } });
            },
        };
        if tokens.len() > 5 {
            return Err(ParseTokenPatternError::TooManyTokens { expected: 5 });
        }
        Ok((f0, f1, f2, f3, f4))
    }
}

/// The error of the field of a tuple of 6 that failed to decode.
#[derive(Debug)]
#[allow(inconsistent_fields)]
pub enum ParseTuple6Error<E0, E1, E2, E3, E4, E5> {
    Field0 { source: E0 },
    Field1 { source: E1 },
    Field2 { source: E2 },
    Field3 { source: E3 },
    Field4 { source: E4 },
    Field5 { source: E5 },
}

impl<T0: FromToken, T1: FromToken, T2: FromToken, T3: FromToken, T4: FromToken, T5: FromToken> FromTokens for (T0, T1, T2, T3, T4, T5) {
    type Error = ParseTokenPatternError<ParseTuple6Error<T0::Err, T1::Err, T2::Err, T3::Err, T4::Err, T5::Err>>;

    open spec fn decodes(ts: Seq<Seq<char>>, r: Result<Self, Self::Error>) -> bool {
        match fit(6, seq![T0::accepts(ts[0]), T1::accepts(ts[1]), T2::accepts(ts[2]), T3::accepts(ts[3]), T4::accepts(ts[4]), T5::accepts(ts[5])], ts.len()) {
            Fit::Fits => match r {
                Ok(v) => T0::written_by(ts[0], v.0) && T1::written_by(ts[1], v.1) && T2::written_by(ts[2], v.2) && T3::written_by(ts[3], v.3) && T4::written_by(ts[4], v.4) && T5::written_by(ts[5], v.5),
                _ => false,
            },
            Fit::Unsuited(i) => match r {
                Err(ParseTokenPatternError::ParseError { source }) => match source {
                    ParseTuple6Error::Field0 { source: e } => i == 0 && T0::rejects(ts[0], e),
                    ParseTuple6Error::Field1 { source: e } => i == 1 && T1::rejects(ts[1], e),
                    ParseTuple6Error::Field2 { source: e } => i == 2 && T2::rejects(ts[2], e),
                    ParseTuple6Error::Field3 { source: e } => i == 3 && T3::rejects(ts[3], e),
                    ParseTuple6Error::Field4 { source: e } => i == 4 && T4::rejects(ts[4], e),
                    ParseTuple6Error::Field5 { source: e } => i == 5 && T5::rejects(ts[5], e),
                },
                _ => false,
            },
            Fit::Missing(i) => match r {
                Err(ParseTokenPatternError::TooFewTokens { real: got, expected }) => got == i && expected
                    == 6,
                _ => false,
            },
            Fit::Surplus => match r {
                Err(ParseTokenPatternError::TooManyTokens { expected }) => expected == 6,
                _ => false,
            },
        }
    }

    fn from_tokens(tokens: &[String]) -> (r: Result<Self, Self::Error>) {
        proof {
            reveal_with_fuel(fit_from, 8);
        }
        if tokens.len() <= 0 {
            return Err(ParseTokenPatternError::TooFewTokens { real: 0, expected: 6 });
        }
        let f0 = match T0::from_token(tokens[0].as_str()) {
            Ok(v) => v,
            Err(source) => {
                return Err(ParseTokenPatternError::ParseError { source: ParseTuple6Error::Field0 { source } });
            },
        };
        if tokens.len() <= 1 {
            return Err(ParseTokenPatternError::TooFewTokens { real: 1, expected: 6 });
        }
        let f1 = match T1::from_token(tokens[1].as_str()) {
            Ok(v) => v,
            Err(source) => {
                return Err(ParseTokenPatternError::ParseError { source: ParseTuple6Error::Field1 { source } });
            },
        };
        if tokens.len() <= 2 {
            return Err(ParseTokenPatternError::TooFewTokens { real: 2, expected: 6 });
        }
        let f2 = match T2::from_token(tokens[2].as_str()) {
            Ok(v) => v,
            Err(source) => {
                return Err(ParseTokenPatternError::ParseError { source: ParseTuple6Error::Field2 { source } });
            },
        };
        if tokens.len() <= 3 {
            return Err(ParseTokenPatternError::TooFewTokens { real: 3, expected: 6 });
        }
        let f3 = match T3::from_token(tokens[3].as_str()) {
            Ok(v) => v,
            Err(source) => {
                return Err(ParseTokenPatternError::ParseError { source: ParseTuple6Error::Field3 { source } });
            },
        };
        if tokens.len() <= 4 {
            return Err(ParseTokenPatternError::TooFewTokens { real: 4, expected: 6 });
        }
        let f4 = match T4::from_token(tokens[4].as_str()) {
            Ok(v) => v,
            Err(source) => {
                return Err(ParseTokenPatternError::ParseError { source: ParseTuple6Error::Field4 { source } });
            },
        };
        if tokens.len() <= 5 {
            return Err(ParseTokenPatternError::TooFewTokens { real: 5, expected: 6 });
        }
        let f5 = match T5::from_token(tokens[5].as_str()) {
            Ok(v) => v,
            Err(source) => {
                return Err(ParseTokenPatternError::ParseError { source: ParseTuple6Error::Field5 { source } });
            },
        };
        if tokens.len() > 6 {
            return Err(ParseTokenPatternError::TooManyTokens { expected: 6 });
        }
        Ok((f0, f1, f2, f3, f4, f5))
    }
}

/// The error of the field of a tuple of 7 that failed to decode.
#[derive(Debug)]
#[allow(inconsistent_fields)]
pub enum ParseTuple7Error<E0, E1, E2, E3, E4, E5, E6> {
    Field0 { source: E0 },
    Field1 { source: E1 },
    Field2 { source: E2 },
    Field3 { source: E3 },
    Field4 { source: E4 },
    Field5 { source: E5 },
    Field6 { source: E6 },
}

impl<T0: FromToken, T1: FromToken, T2: FromToken, T3: FromToken, T4: FromToken, T5: FromToken, T6: FromToken> FromTokens for (T0, T1, T2, T3, T4, T5, T6) {
    type Error = ParseTokenPatternError<ParseTuple7Error<T0::Err, T1::Err, T2::Err, T3::Err, T4::Err, T5::Err, T6::Err>>;

    open spec fn decodes(ts: Seq<Seq<char>>, r: Result<Self, Self::Error>) -> bool {
        match fit(7, seq![T0::accepts(ts[0]), T1::accepts(ts[1]), T2::accepts(ts[2]), T3::accepts(ts[3]), T4::accepts(ts[4]), T5::accepts(ts[5]), T6::accepts(ts[6])], ts.len()) {
            Fit::Fits => match r {
                Ok(v) => T0::written_by(ts[0], v.0) && T1::written_by(ts[1], v.1) && T2::written_by(ts[2], v.2) && T3::written_by(ts[3], v.3) && T4::written_by(ts[4], v.4) && T5::written_by(ts[5], v.5) && T6::written_by(ts[6], v.6),
                _ => false,
            },
            Fit::Unsuited(i) => match r {
                Err(ParseTokenPatternError::ParseError { source }) => match source {
                    ParseTuple7Error::Field0 { source: e } => i == 0 && T0::rejects(ts[0], e),
                    ParseTuple7Error::Field1 { source: e } => i == 1 && T1::rejects(ts[1], e),
                    ParseTuple7Error::Field2 { source: e } => i == 2 && T2::rejects(ts[2], e),
                    ParseTuple7Error::Field3 { source: e } => i == 3 && T3::rejects(ts[3], e),
                    ParseTuple7Error::Field4 { source: e } => i == 4 && T4::rejects(ts[4], e),
                    ParseTuple7Error::Field5 { source: e } => i == 5 && T5::rejects(ts[5], e),
                    ParseTuple7Error::Field6 { source: e } => i == 6 && T6::rejects(ts[6], e),
                },
                _ => false,
            },
            Fit::Missing(i) => match r {
                Err(ParseTokenPatternError::TooFewTokens { real: got, expected }) => got == i && expected
                    == 7,
                _ => false,
            },
            Fit::Surplus => match r {
                Err(ParseTokenPatternError::TooManyTokens { expected }) => expected == 7,
                _ => false,
            },
        }
    }

    fn from_tokens(tokens: &[String]) -> (r: Result<Self, Self::Error>) {
        proof {
            reveal_with_fuel(fit_from, 9);
        }
        if tokens.len() <= 0 {
            return Err(ParseTokenPatternError::TooFewTokens { real: 0, expected: 7 });
        }
        let f0 = match T0::from_token(tokens[0].as_str()) {
            Ok(v) => v,
            Err(source) => {
                return Err(ParseTokenPatternError::ParseError { source: ParseTuple7Error::Field0 { source } });
            },
        };
        if tokens.len() <= 1 {
            return Err(ParseTokenPatternError::TooFewTokens { real: 1, expected: 7 });
        }
        let f1 = match T1::from_token(tokens[1].as_str()) {
            Ok(v) => v,
            Err(source) => {
                return Err(ParseTokenPatternError::ParseError { source: ParseTuple7Error::Field1 { source } });
            },
        };
        if tokens.len() <= 2 {
            return Err(ParseTokenPatternError::TooFewTokens { real: 2, expected: 7 });
        }
        let f2 = match T2::from_token(tokens[2].as_str()) {
            Ok(v) => v,
            Err(source) => {
                return Err(ParseTokenPatternError::ParseError { source: ParseTuple7Error::Field2 { source } });
            },
        };
        if tokens.len() <= 3 {
            return Err(ParseTokenPatternError::TooFewTokens { real: 3, expected: 7 });
        }
        let f3 = match T3::from_token(tokens[3].as_str()) {
            Ok(v) => v,
            Err(source) => {
                return Err(ParseTokenPatternError::ParseError { source: ParseTuple7Error::Field3 { source } });
            },
        };
        if tokens.len() <= 4 {
            return Err(ParseTokenPatternError::TooFewTokens { real: 4, expected: 7 });
        }
        let f4 = match T4::from_token(tokens[4].as_str()) {
            Ok(v) => v,
            Err(source) => {
                return Err(ParseTokenPatternError::ParseError { source: ParseTuple7Error::Field4 { source } });
            },
        };
        if tokens.len() <= 5 {
            return Err(ParseTokenPatternError::TooFewTokens { real: 5, expected: 7 });
        }
        let f5 = match T5::from_token(tokens[5].as_str()) {
            Ok(v) => v,
            Err(source) => {
                return Err(ParseTokenPatternError::ParseError { source: ParseTuple7Error::Field5 { source } });
            },
        };
        if tokens.len() <= 6 {
            return Err(ParseTokenPatternError::TooFewTokens { real: 6, expected: 7 });
        }
        let f6 = match T6::from_token(tokens[6].as_str()) {
            Ok(v) => v,
            Err(source) => {
                return Err(ParseTokenPatternError::ParseError { source: ParseTuple7Error::Field6 { source } });
            },
        };
        if tokens.len() > 7 {
            return Err(ParseTokenPatternError::TooManyTokens { expected: 7 });
        }
        Ok((f0, f1, f2, f3, f4, f5, f6))
    }
}

/// The error of the field of a tuple of 8 that failed to decode.
#[derive(Debug)]
#[allow(inconsistent_fields)]
pub enum ParseTuple8Error<E0, E1, E2, E3, E4, E5, E6, E7> {
    Field0 { source: E0 },
    Field1 { source: E1 },
    Field2 { source: E2 },
    Field3 { source: E3 },
    Field4 { source: E4 },
    Field5 { source: E5 },
    Field6 { source: E6 },
    Field7 { source: E7 },
}

impl<T0: FromToken, T1: FromToken, T2: FromToken, T3: FromToken, T4: FromToken, T5: FromToken, T6: FromToken, T7: FromToken> FromTokens for (T0, T1, T2, T3, T4, T5, T6, T7) {
    type Error = ParseTokenPatternError<ParseTuple8Error<T0::Err, T1::Err, T2::Err, T3::Err, T4::Err, T5::Err, T6::Err, T7::Err>>;

    open spec fn decodes(ts: Seq<Seq<char>>, r: Result<Self, Self::Error>) -> bool {
        match fit(8, seq![T0::accepts(ts[0]), T1::accepts(ts[1]), T2::accepts(ts[2]), T3::accepts(ts[3]), T4::accepts(ts[4]), T5::accepts(ts[5]), T6::accepts(ts[6]), T7::accepts(ts[7])], ts.len()) {
            Fit::Fits => match r {
                Ok(v) => T0::written_by(ts[0], v.0) && T1::written_by(ts[1], v.1) && T2::written_by(ts[2], v.2) && T3::written_by(ts[3], v.3) && T4::written_by(ts[4], v.4) && T5::written_by(ts[5], v.5) && T6::written_by(ts[6], v.6) && T7::written_by(ts[7], v.7),
                _ => false,
            },
            Fit::Unsuited(i) => match r {
                Err(ParseTokenPatternError::ParseError { source }) => match source {
                    ParseTuple8Error::Field0 { source: e } => i == 0 && T0::rejects(ts[0], e),
                    ParseTuple8Error::Field1 { source: e } => i == 1 && T1::rejects(ts[1], e),
                    ParseTuple8Error::Field2 { source: e } => i == 2 && T2::rejects(ts[2], e),
                    ParseTuple8Error::Field3 { source: e } => i == 3 && T3::rejects(ts[3], e),
                    ParseTuple8Error::Field4 { source: e } => i == 4 && T4::rejects(ts[4], e),
                    ParseTuple8Error::Field5 { source: e } => i == 5 && T5::rejects(ts[5], e),
                    ParseTuple8Error::Field6 { source: e } => i == 6 && T6::rejects(ts[6], e),
                    ParseTuple8Error::Field7 { source: e } => i == 7 && T7::rejects(ts[7], e),
                },
                _ => false,
            },
            Fit::Missing(i) => match r {
                Err(ParseTokenPatternError::TooFewTokens { real: got, expected }) => got == i && expected
                    == 8,
                _ => false,
            },
            Fit::Surplus => match r {
                Err(ParseTokenPatternError::TooManyTokens { expected }) => expected == 8,
                _ => false,
            },
        }
    }

    fn from_tokens(tokens: &[String]) -> (r: Result<Self, Self::Error>) {
        proof {
            reveal_with_fuel(fit_from, 10);
        }
        if tokens.len() <= 0 {
            return Err(ParseTokenPatternError::TooFewTokens { real: 0, expected: 8 });
        }
        let f0 = match T0::from_token(tokens[0].as_str()) {
            Ok(v) => v,
            Err(source) => {
                return Err(ParseTokenPatternError::ParseError { source: ParseTuple8Error::Field0 { source } });
            },
        };
        if tokens.len() <= 1 {
            return Err(ParseTokenPatternError::TooFewTokens { real: 1, expected: 8 });
        }
        let f1 = match T1::from_token(tokens[1].as_str()) {
            Ok(v) => v,
            Err(source) => {
                return Err(ParseTokenPatternError::ParseError { source: ParseTuple8Error::Field1 { source } });
            },
        };
        if tokens.len() <= 2 {
            return Err(ParseTokenPatternError::TooFewTokens { real: 2, expected: 8 });
        }
        let f2 = match T2::from_token(tokens[2].as_str()) {
            Ok(v) => v,
            Err(source) => {
                return Err(ParseTokenPatternError::ParseError { source: ParseTuple8Error::Field2 { source } });
            },
        };
        if tokens.len() <= 3 {
            return Err(ParseTokenPatternError::TooFewTokens { real: 3, expected: 8 });
        }
        let f3 = match T3::from_token(tokens[3].as_str()) {
            Ok(v) => v,
            Err(source) => {
                return Err(ParseTokenPatternError::ParseError { source: ParseTuple8Error::Field3 { source } });
            },
        };
        if tokens.len() <= 4 {
            return Err(ParseTokenPatternError::TooFewTokens { real: 4, expected: 8 });
        }
        let f4 = match T4::from_token(tokens[4].as_str()) {
            Ok(v) => v,
            Err(source) => {
                return Err(ParseTokenPatternError::ParseError { source: ParseTuple8Error::Field4 { source } });
            },
        };
        if tokens.len() <= 5 {
            return Err(ParseTokenPatternError::TooFewTokens { real: 5, expected: 8 });
        }
        let f5 = match T5::from_token(tokens[5].as_str()) {
            Ok(v) => v,
            Err(source) => {
                return Err(ParseTokenPatternError::ParseError { source: ParseTuple8Error::Field5 { source } });
            },
        };
        if tokens.len() <= 6 {
            return Err(ParseTokenPatternError::TooFewTokens { real: 6, expected: 8 });
        }
        let f6 = match T6::from_token(tokens[6].as_str()) {
            Ok(v) => v,
            Err(source) => {
                return Err(ParseTokenPatternError::ParseError { source: ParseTuple8Error::Field6 { source } });
            },
        };
        if tokens.len() <= 7 {
            return Err(ParseTokenPatternError::TooFewTokens { real: 7, expected: 8 });
        }
        let f7 = match T7::from_token(tokens[7].as_str()) {
            Ok(v) => v,
            Err(source) => {
                return Err(ParseTokenPatternError::ParseError { source: ParseTuple8Error::Field7 { source } });
            },
        };
        if tokens.len() > 8 {
            return Err(ParseTokenPatternError::TooManyTokens { expected: 8 });
        }
        Ok((f0, f1, f2, f3, f4, f5, f6, f7))
    }
}

/// The error of the field of a tuple of 9 that failed to decode.
#[derive(Debug)]
#[allow(inconsistent_fields)]
pub enum ParseTuple9Error<E0, E1, E2, E3, E4, E5, E6, E7, E8> {
    Field0 { source: E0 },
    Field1 { source: E1 },
    Field2 { source: E2 },
    Field3 { source: E3 },
    Field4 { source: E4 },
    Field5 { source: E5 },
    Field6 { source: E6 },
    Field7 { source: E7 },
    Field8 { source: E8 },
}

impl<T0: FromToken, T1: FromToken, T2: FromToken, T3: FromToken, T4: FromToken, T5: FromToken, T6: FromToken, T7: FromToken, T8: FromToken> FromTokens for (T0, T1, T2, T3, T4, T5, T6, T7, T8) {
    type Error = ParseTokenPatternError<ParseTuple9Error<T0::Err, T1::Err, T2::Err, T3::Err, T4::Err, T5::Err, T6::Err, T7::Err, T8::Err>>;

    open spec fn decodes(ts: Seq<Seq<char>>, r: Result<Self, Self::Error>) -> bool {
        match fit(9, seq![T0::accepts(ts[0]), T1::accepts(ts[1]), T2::accepts(ts[2]), T3::accepts(ts[3]), T4::accepts(ts[4]), T5::accepts(ts[5]), T6::accepts(ts[6]), T7::accepts(ts[7]), T8::accepts(ts[8])], ts.len()) {
            Fit::Fits => match r {
                Ok(v) => T0::written_by(ts[0], v.0) && T1::written_by(ts[1], v.1) && T2::written_by(ts[2], v.2) && T3::written_by(ts[3], v.3) && T4::written_by(ts[4], v.4) && T5::written_by(ts[5], v.5) && T6::written_by(ts[6], v.6) && T7::written_by(ts[7], v.7) && T8::written_by(ts[8], v.8),
                _ => false,
            },
            Fit::Unsuited(i) => match r {
                Err(ParseTokenPatternError::ParseError { source }) => match source {
                    ParseTuple9Error::Field0 { source: e } => i == 0 && T0::rejects(ts[0], e),
                    ParseTuple9Error::Field1 { source: e } => i == 1 && T1::rejects(ts[1], e),
                    ParseTuple9Error::Field2 { source: e } => i == 2 && T2::rejects(ts[2], e),
                    ParseTuple9Error::Field3 { source: e } => i == 3 && T3::rejects(ts[3], e),
                    ParseTuple9Error::Field4 { source: e } => i == 4 && T4::rejects(ts[4], e),
                    ParseTuple9Error::Field5 { source: e } => i == 5 && T5::rejects(ts[5], e),
                    ParseTuple9Error::Field6 { source: e } => i == 6 && T6::rejects(ts[6], e),
                    ParseTuple9Error::Field7 { source: e } => i == 7 && T7::rejects(ts[7], e),
                    ParseTuple9Error::Field8 { source: e } => i == 8 && T8::rejects(ts[8], e),
                },
                _ => false,
            },
            Fit::Missing(i) => match r {
                Err(ParseTokenPatternError::TooFewTokens { real: got, expected }) => got == i && expected
                    == 9,
                _ => false,
            },
            Fit::Surplus => match r {
                Err(ParseTokenPatternError::TooManyTokens { expected }) => expected == 9,
                _ => false,
            },
        }
    }

    fn from_tokens(tokens: &[String]) -> (r: Result<Self, Self::Error>) {
        proof {
            reveal_with_fuel(fit_from, 11);
        }
        if tokens.len() <= 0 {
            return Err(ParseTokenPatternError::TooFewTokens { real: 0, expected: 9 });
        }
        let f0 = match T0::from_token(tokens[0].as_str()) {
            Ok(v) => v,
            Err(source) => {
                return Err(ParseTokenPatternError::ParseError { source: ParseTuple9Error::Field0 { source } });
            },
        };
        if tokens.len() <= 1 {
            return Err(ParseTokenPatternError::TooFewTokens { real: 1, expected: 9 });
        }
        let f1 = match T1::from_token(tokens[1].as_str()) {
            Ok(v) => v,
            Err(source) => {
                return Err(ParseTokenPatternError::ParseError { source: ParseTuple9Error::Field1 { source } });
            },
        };
        if tokens.len() <= 2 {
            return Err(ParseTokenPatternError::TooFewTokens { real: 2, expected: 9 });
        }
        let f2 = match T2::from_token(tokens[2].as_str()) {
            Ok(v) => v,
            Err(source) => {
                return Err(ParseTokenPatternError::ParseError { source: ParseTuple9Error::Field2 { source } });
            },
        };
        if tokens.len() <= 3 {
            return Err(ParseTokenPatternError::TooFewTokens { real: 3, expected: 9 });
        }
        let f3 = match T3::from_token(tokens[3].as_str()) {
            Ok(v) => v,
            Err(source) => {
                return Err(ParseTokenPatternError::ParseError { source: ParseTuple9Error::Field3 { source } });
            },
        };
        if tokens.len() <= 4 {
            return Err(ParseTokenPatternError::TooFewTokens { real: 4, expected: 9 });
        }
        let f4 = match T4::from_token(tokens[4].as_str()) {
            Ok(v) => v,
            Err(source) => {
                return Err(ParseTokenPatternError::ParseError { source: ParseTuple9Error::Field4 { source } });
            },
        };
        if tokens.len() <= 5 {
            return Err(ParseTokenPatternError::TooFewTokens { real: 5, expected: 9 });
        }
        let f5 = match T5::from_token(tokens[5].as_str()) {
            Ok(v) => v,
            Err(source) => {
                return Err(ParseTokenPatternError::ParseError { source: ParseTuple9Error::Field5 { source } });
            },
        };
        if tokens.len() <= 6 {
            return Err(ParseTokenPatternError::TooFewTokens { real: 6, expected: 9 });
        }
        let f6 = match T6::from_token(tokens[6].as_str()) {
            Ok(v) => v,
            Err(source) => {
                return Err(ParseTokenPatternError::ParseError { source: ParseTuple9Error::Field6 { source } });
            },
        };
        if tokens.len() <= 7 {
            return Err(ParseTokenPatternError::TooFewTokens { real: 7, expected: 9 });
        }
        let f7 = match T7::from_token(tokens[7].as_str()) {
            Ok(v) => v,
            Err(source) => {
                return Err(ParseTokenPatternError::ParseError { source: ParseTuple9Error::Field7 { source } });
            },
        };
        if tokens.len() <= 8 {
            return Err(ParseTokenPatternError::TooFewTokens { real: 8, expected: 9 });
        }
        let f8 = match T8::from_token(tokens[8].as_str()) {
            Ok(v) => v,
            Err(source) => {
                return Err(ParseTokenPatternError::ParseError { source: ParseTuple9Error::Field8 { source } });
            },
        };
        if tokens.len() > 9 {
            return Err(ParseTokenPatternError::TooManyTokens { expected: 9 });
        }
        Ok((f0, f1, f2, f3, f4, f5, f6, f7, f8))
    }
}

/// The error of the field of a tuple of 10 that failed to decode.
#[derive(Debug)]
#[allow(inconsistent_fields)]
pub enum ParseTuple10Error<E0, E1, E2, E3, E4, E5, E6, E7, E8, E9> {
    Field0 { source: E0 },
    Field1 { source: E1 },
    Field2 { source: E2 },
    Field3 { source: E3 },
    Field4 { source: E4 },
    Field5 { source: E5 },
    Field6 { source: E6 },
    Field7 { source: E7 },
    Field8 { source: E8 },
    Field9 { source: E9 },
}

impl<T0: FromToken, T1: FromToken, T2: FromToken, T3: FromToken, T4: FromToken, T5: FromToken, T6: FromToken, T7: FromToken, T8: FromToken, T9: FromToken> FromTokens for (T0, T1, T2, T3, T4, T5, T6, T7, T8, T9) {
    type Error = ParseTokenPatternError<ParseTuple10Error<T0::Err, T1::Err, T2::Err, T3::Err, T4::Err, T5::Err, T6::Err, T7::Err, T8::Err, T9::Err>>;

    open spec fn decodes(ts: Seq<Seq<char>>, r: Result<Self, Self::Error>) -> bool {
        match fit(10, seq![T0::accepts(ts[0]), T1::accepts(ts[1]), T2::accepts(ts[2]), T3::accepts(ts[3]), T4::accepts(ts[4]), T5::accepts(ts[5]), T6::accepts(ts[6]), T7::accepts(ts[7]), T8::accepts(ts[8]), T9::accepts(ts[9])], ts.len()) {
            Fit::Fits => match r {
                Ok(v) => T0::written_by(ts[0], v.0) && T1::written_by(ts[1], v.1) && T2::written_by(ts[2], v.2) && T3::written_by(ts[3], v.3) && T4::written_by(ts[4], v.4) && T5::written_by(ts[5], v.5) && T6::written_by(ts[6], v.6) && T7::written_by(ts[7], v.7) && T8::written_by(ts[8], v.8) && T9::written_by(ts[9], v.9),
                _ => false,
            },
            Fit::Unsuited(i) => match r {
                Err(ParseTokenPatternError::ParseError { source }) => match source {
                    ParseTuple10Error::Field0 { source: e } => i == 0 && T0::rejects(ts[0], e),
                    ParseTuple10Error::Field1 { source: e } => i == 1 && T1::rejects(ts[1], e),
                    ParseTuple10Error::Field2 { source: e } => i == 2 && T2::rejects(ts[2], e),
                    ParseTuple10Error::Field3 { source: e } => i == 3 && T3::rejects(ts[3], e),
                    ParseTuple10Error::Field4 { source: e } => i == 4 && T4::rejects(ts[4], e),
                    ParseTuple10Error::Field5 { source: e } => i == 5 && T5::rejects(ts[5], e),
                    ParseTuple10Error::Field6 { source: e } => i == 6 && T6::rejects(ts[6], e),
                    ParseTuple10Error::Field7 { source: e } => i == 7 && T7::rejects(ts[7], e),
                    ParseTuple10Error::Field8 { source: e } => i == 8 && T8::rejects(ts[8], e),
                    ParseTuple10Error::Field9 { source: e } => i == 9 && T9::rejects(ts[9], e),
                },
                _ => false,
            },
            Fit::Missing(i) => match r {
                Err(ParseTokenPatternError::TooFewTokens { real: got, expected }) => got == i && expected
                    == 10,
                _ => false,
            },
            Fit::Surplus => match r {
                Err(ParseTokenPatternError::TooManyTokens { expected }) => expected == 10,
                _ => false,
            },
        }
    }

    fn from_tokens(tokens: &[String]) -> (r: Result<Self, Self::Error>) {
        proof {
            reveal_with_fuel(fit_from, 12);
        }
        if tokens.len() <= 0 {
            return Err(ParseTokenPatternError::TooFewTokens { real: 0, expected: 10 });
        }
        let f0 = match T0::from_token(tokens[0].as_str()) {
            Ok(v) => v,
            Err(source) => {
                return Err(ParseTokenPatternError::ParseError { source: ParseTuple10Error::Field0 { source } });
            },
        };
        if tokens.len() <= 1 {
            return Err(ParseTokenPatternError::TooFewTokens { real: 1, expected: 10 });
        }
        let f1 = match T1::from_token(tokens[1].as_str()) {
            Ok(v) => v,
            Err(source) => {
                return Err(ParseTokenPatternError::ParseError { source: ParseTuple10Error::Field1 { source } });
            },
        };
        if tokens.len() <= 2 {
            return Err(ParseTokenPatternError::TooFewTokens { real: 2, expected: 10 });
        }
        let f2 = match T2::from_token(tokens[2].as_str()) {
            Ok(v) => v,
            Err(source) => {
                return Err(ParseTokenPatternError::ParseError { source: ParseTuple10Error::Field2 { source } });
            },
        };
        if tokens.len() <= 3 {
            return Err(ParseTokenPatternError::TooFewTokens { real: 3, expected: 10 });
        }
        let f3 = match T3::from_token(tokens[3].as_str()) {
            Ok(v) => v,
            Err(source) => {
                return Err(ParseTokenPatternError::ParseError { source: ParseTuple10Error::Field3 { source } });
            },
        };
        if tokens.len() <= 4 {
            return Err(ParseTokenPatternError::TooFewTokens { real: 4, expected: 10 });
        }
        let f4 = match T4::from_token(tokens[4].as_str()) {
            Ok(v) => v,
            Err(source) => {
                return Err(ParseTokenPatternError::ParseError { source: ParseTuple10Error::Field4 { source } });
            },
        };
        if tokens.len() <= 5 {
            return Err(ParseTokenPatternError::TooFewTokens { real: 5, expected: 10 });
        }
        let f5 = match T5::from_token(tokens[5].as_str()) {
            Ok(v) => v,
            Err(source) => {
                return Err(ParseTokenPatternError::ParseError { source: ParseTuple10Error::Field5 { source } });
            },
        };
        if tokens.len() <= 6 {
            return Err(ParseTokenPatternError::TooFewTokens { real: 6, expected: 10 });
        }
        let f6 = match T6::from_token(tokens[6].as_str()) {
            Ok(v) => v,
            Err(source) => {
                return Err(ParseTokenPatternError::ParseError { source: ParseTuple10Error::Field6 { source } });
            },
        };
        if tokens.len() <= 7 {
            return Err(ParseTokenPatternError::TooFewTokens { real: 7, expected: 10 });
        }
        let f7 = match T7::from_token(tokens[7].as_str()) {
            Ok(v) => v,
            Err(source) => {
                return Err(ParseTokenPatternError::ParseError { source: ParseTuple10Error::Field7 { source } });
            },
        };
        if tokens.len() <= 8 {
            return Err(ParseTokenPatternError::TooFewTokens { real: 8, expected: 10 });
        }
        let f8 = match T8::from_token(tokens[8].as_str()) {
            Ok(v) => v,
            Err(source) => {
                return Err(ParseTokenPatternError::ParseError { source: ParseTuple10Error::Field8 { source } });
            },
        };
        if tokens.len() <= 9 {
            return Err(ParseTokenPatternError::TooFewTokens { real: 9, expected: 10 });
        }
        let f9 = match T9::from_token(tokens[9].as_str()) {
            Ok(v) => v,
            Err(source) => {
                return Err(ParseTokenPatternError::ParseError { source: ParseTuple10Error::Field9 { source } });
            },
        };
        if tokens.len() > 10 {
            return Err(ParseTokenPatternError::TooManyTokens { expected: 10 });
        }
        Ok((f0, f1, f2, f3, f4, f5, f6, f7, f8, f9))
    }
}

/// The error of the field of a tuple of 11 that failed to decode.
#[derive(Debug)]
#[allow(inconsistent_fields)]
pub enum ParseTuple11Error<E0, E1, E2, E3, E4, E5, E6, E7, E8, E9, E10> {
    Field0 { source: E0 },
    Field1 { source: E1 },
    Field2 { source: E2 },
    Field3 { source: E3 },
    Field4 { source: E4 },
    Field5 { source: E5 },
    Field6 { source: E6 },
    Field7 { source: E7 },
    Field8 { source: E8 },
    Field9 { source: E9 },
    Field10 { source: E10 },
}

impl<T0: FromToken, T1: FromToken, T2: FromToken, T3: FromToken, T4: FromToken, T5: FromToken, T6: FromToken, T7: FromToken, T8: FromToken, T9: FromToken, T10: FromToken> FromTokens for (T0, T1, T2, T3, T4, T5, T6, T7, T8, T9, T10) {
    type Error = ParseTokenPatternError<ParseTuple11Error<T0::Err, T1::Err, T2::Err, T3::Err, T4::Err, T5::Err, T6::Err, T7::Err, T8::Err, T9::Err, T10::Err>>;

    open spec fn decodes(ts: Seq<Seq<char>>, r: Result<Self, Self::Error>) -> bool {
        match fit(11, seq![T0::accepts(ts[0]), T1::accepts(ts[1]), T2::accepts(ts[2]), T3::accepts(ts[3]), T4::accepts(ts[4]), T5::accepts(ts[5]), T6::accepts(ts[6]), T7::accepts(ts[7]), T8::accepts(ts[8]), T9::accepts(ts[9]), T10::accepts(ts[10])], ts.len()) {
            Fit::Fits => match r {
                Ok(v) => T0::written_by(ts[0], v.0) && T1::written_by(ts[1], v.1) && T2::written_by(ts[2], v.2) && T3::written_by(ts[3], v.3) && T4::written_by(ts[4], v.4) && T5::written_by(ts[5], v.5) && T6::written_by(ts[6], v.6) && T7::written_by(ts[7], v.7) && T8::written_by(ts[8], v.8) && T9::written_by(ts[9], v.9) && T10::written_by(ts[10], v.10),
                _ => false,
            },
            Fit::Unsuited(i) => match r {
                Err(ParseTokenPatternError::ParseError { source }) => match source {
                    ParseTuple11Error::Field0 { source: e } => i == 0 && T0::rejects(ts[0], e),
                    ParseTuple11Error::Field1 { source: e } => i == 1 && T1::rejects(ts[1], e),
                    ParseTuple11Error::Field2 { source: e } => i == 2 && T2::rejects(ts[2], e),
                    ParseTuple11Error::Field3 { source: e } => i == 3 && T3::rejects(ts[3], e),
                    ParseTuple11Error::Field4 { source: e } => i == 4 && T4::rejects(ts[4], e),
                    ParseTuple11Error::Field5 { source: e } => i == 5 && T5::rejects(ts[5], e),
                    ParseTuple11Error::Field6 { source: e } => i == 6 && T6::rejects(ts[6], e),
                    ParseTuple11Error::Field7 { source: e } => i == 7 && T7::rejects(ts[7], e),
                    ParseTuple11Error::Field8 { source: e } => i == 8 && T8::rejects(ts[8], e),
                    ParseTuple11Error::Field9 { source: e } => i == 9 && T9::rejects(ts[9], e),
                    ParseTuple11Error::Field10 { source: e } => i == 10 && T10::rejects(ts[10], e),
                },
                _ => false,
            },
            Fit::Missing(i) => match r {
                Err(ParseTokenPatternError::TooFewTokens { real: got, expected }) => got == i && expected
                    == 11,
                _ => false,
            },
            Fit::Surplus => match r {
                Err(ParseTokenPatternError::TooManyTokens { expected }) => expected == 11,
                _ => false,
            },
        }
    }

    fn from_tokens(tokens: &[String]) -> (r: Result<Self, Self::Error>) {
        proof {
            reveal_with_fuel(fit_from, 13);
        }
        if tokens.len() <= 0 {
            return Err(ParseTokenPatternError::TooFewTokens { real: 0, expected: 11 });
        }
        let f0 = match T0::from_token(tokens[0].as_str()) {
            Ok(v) => v,
            Err(source) => {
                return Err(ParseTokenPatternError::ParseError { source: ParseTuple11Error::Field0 { source } });
            },
        };
        if tokens.len() <= 1 {
            return Err(ParseTokenPatternError::TooFewTokens { real: 1, expected: 11 });
        }
        let f1 = match T1::from_token(tokens[1].as_str()) {
            Ok(v) => v,
            Err(source) => {
                return Err(ParseTokenPatternError::ParseError { source: ParseTuple11Error::Field1 { source } });
            },
        };
        if tokens.len() <= 2 {
            return Err(ParseTokenPatternError::TooFewTokens { real: 2, expected: 11 });
        }
        let f2 = match T2::from_token(tokens[2].as_str()) {
            Ok(v) => v,
            Err(source) => {
                return Err(ParseTokenPatternError::ParseError { source: ParseTuple11Error::Field2 { source } });
            },
        };
        if tokens.len() <= 3 {
            return Err(ParseTokenPatternError::TooFewTokens { real: 3, expected: 11 });
        }
        let f3 = match T3::from_token(tokens[3].as_str()) {
            Ok(v) => v,
            Err(source) => {
                return Err(ParseTokenPatternError::ParseError { source: ParseTuple11Error::Field3 { source } });
            },
        };
        if tokens.len() <= 4 {
            return Err(ParseTokenPatternError::TooFewTokens { real: 4, expected: 11 });
        }
        let f4 = match T4::from_token(tokens[4].as_str()) {
            Ok(v) => v,
            Err(source) => {
                return Err(ParseTokenPatternError::ParseError { source: ParseTuple11Error::Field4 { source } });
            },
        };
        if tokens.len() <= 5 {
            return Err(ParseTokenPatternError::TooFewTokens { real: 5, expected: 11 });
        }
        let f5 = match T5::from_token(tokens[5].as_str()) {
            Ok(v) => v,
            Err(source) => {
                return Err(ParseTokenPatternError::ParseError { source: ParseTuple11Error::Field5 { source } });
            },
        };
        if tokens.len() <= 6 {
            return Err(ParseTokenPatternError::TooFewTokens { real: 6, expected: 11 });
        }
        let f6 = match T6::from_token(tokens[6].as_str()) {
            Ok(v) => v,
            Err(source) => {
                return Err(ParseTokenPatternError::ParseError { source: ParseTuple11Error::Field6 { source } });
            },
        };
        if tokens.len() <= 7 {
            return Err(ParseTokenPatternError::TooFewTokens { real: 7, expected: 11 });
        }
        let f7 = match T7::from_token(tokens[7].as_str()) {
            Ok(v) => v,
            Err(source) => {
                return Err(ParseTokenPatternError::ParseError { source: ParseTuple11Error::Field7 { source } });
            },
        };
        if tokens.len() <= 8 {
            return Err(ParseTokenPatternError::TooFewTokens { real: 8, expected: 11 });
        }
        let f8 = match T8::from_token(tokens[8].as_str()) {
            Ok(v) => v,
            Err(source) => {
                return Err(ParseTokenPatternError::ParseError { source: ParseTuple11Error::Field8 { source } });
            },
        };
        if tokens.len() <= 9 {
            return Err(ParseTokenPatternError::TooFewTokens { real: 9, expected: 11 });
        }
        let f9 = match T9::from_token(tokens[9].as_str()) {
            Ok(v) => v,
            Err(source) => {
                return Err(ParseTokenPatternError::ParseError { source: ParseTuple11Error::Field9 { source } });
            },
        };
        if tokens.len() <= 10 {
            return Err(ParseTokenPatternError::TooFewTokens { real: 10, expected: 11 });
        }
        let f10 = match T10::from_token(tokens[10].as_str()) {
            Ok(v) => v,
            Err(source) => {
                return Err(ParseTokenPatternError::ParseError { source: ParseTuple11Error::Field10 { source } });
            },
        };
        if tokens.len() > 11 {
            return Err(ParseTokenPatternError::TooManyTokens { expected: 11 });
        }
        Ok((f0, f1, f2, f3, f4, f5, f6, f7, f8, f9, f10))
    }
}

/// The error of the field of a tuple of 12 that failed to decode.
#[derive(Debug)]
#[allow(inconsistent_fields)]
pub enum ParseTuple12Error<E0, E1, E2, E3, E4, E5, E6, E7, E8, E9, E10, E11> {
    Field0 { source: E0 },
    Field1 { source: E1 },
    Field2 { source: E2 },
    Field3 { source: E3 },
    Field4 { source: E4 },
    Field5 { source: E5 },
    Field6 { source: E6 },
    Field7 { source: E7 },
    Field8 { source: E8 },
    Field9 { source: E9 },
    Field10 { source: E10 },
    Field11 { source: E11 },
}

impl<T0: FromToken, T1: FromToken, T2: FromToken, T3: FromToken, T4: FromToken, T5: FromToken, T6: FromToken, T7: FromToken, T8: FromToken, T9: FromToken, T10: FromToken, T11: FromToken> FromTokens for (T0, T1, T2, T3, T4, T5, T6, T7, T8, T9, T10, T11) {
    type Error = ParseTokenPatternError<ParseTuple12Error<T0::Err, T1::Err, T2::Err, T3::Err, T4::Err, T5::Err, T6::Err, T7::Err, T8::Err, T9::Err, T10::Err, T11::Err>>;

    open spec fn decodes(ts: Seq<Seq<char>>, r: Result<Self, Self::Error>) -> bool {
        match fit(12, seq![T0::accepts(ts[0]), T1::accepts(ts[1]), T2::accepts(ts[2]), T3::accepts(ts[3]), T4::accepts(ts[4]), T5::accepts(ts[5]), T6::accepts(ts[6]), T7::accepts(ts[7]), T8::accepts(ts[8]), T9::accepts(ts[9]), T10::accepts(ts[10]), T11::accepts(ts[11])], ts.len()) {
            Fit::Fits => match r {
                Ok(v) => T0::written_by(ts[0], v.0) && T1::written_by(ts[1], v.1) && T2::written_by(ts[2], v.2) && T3::written_by(ts[3], v.3) && T4::written_by(ts[4], v.4) && T5::written_by(ts[5], v.5) && T6::written_by(ts[6], v.6) && T7::written_by(ts[7], v.7) && T8::written_by(ts[8], v.8) && T9::written_by(ts[9], v.9) && T10::written_by(ts[10], v.10) && T11::written_by(ts[11], v.11),
                _ => false,
            },
            Fit::Unsuited(i) => match r {
                Err(ParseTokenPatternError::ParseError { source }) => match source {
                    ParseTuple12Error::Field0 { source: e } => i == 0 && T0::rejects(ts[0], e),
                    ParseTuple12Error::Field1 { source: e } => i == 1 && T1::rejects(ts[1], e),
                    ParseTuple12Error::Field2 { source: e } => i == 2 && T2::rejects(ts[2], e),
                    ParseTuple12Error::Field3 { source: e } => i == 3 && T3::rejects(ts[3], e),
                    ParseTuple12Error::Field4 { source: e } => i == 4 && T4::rejects(ts[4], e),
                    ParseTuple12Error::Field5 { source: e } => i == 5 && T5::rejects(ts[5], e),
                    ParseTuple12Error::Field6 { source: e } => i == 6 && T6::rejects(ts[6], e),
                    ParseTuple12Error::Field7 { source: e } => i == 7 && T7::rejects(ts[7], e),
                    ParseTuple12Error::Field8 { source: e } => i == 8 && T8::rejects(ts[8], e),
                    ParseTuple12Error::Field9 { source: e } => i == 9 && T9::rejects(ts[9], e),
                    ParseTuple12Error::Field10 { source: e } => i == 10 && T10::rejects(ts[10], e),
                    ParseTuple12Error::Field11 { source: e } => i == 11 && T11::rejects(ts[11], e),
                },
                _ => false,
            },
            Fit::Missing(i) => match r {
                Err(ParseTokenPatternError::TooFewTokens { real: got, expected }) => got == i && expected
                    == 12,
                _ => false,
            },
            Fit::Surplus => match r {
                Err(ParseTokenPatternError::TooManyTokens { expected }) => expected == 12,
                _ => false,
            },
        }
    }

    fn from_tokens(tokens: &[String]) -> (r: Result<Self, Self::Error>) {
        proof {
            reveal_with_fuel(fit_from, 14);
        }
        if tokens.len() <= 0 {
            return Err(ParseTokenPatternError::TooFewTokens { real: 0, expected: 12 });
        }
        let f0 = match T0::from_token(tokens[0].as_str()) {
            Ok(v) => v,
            Err(source) => {
                return Err(ParseTokenPatternError::ParseError { source: ParseTuple12Error::Field0 { source } });
            },
        };
        if tokens.len() <= 1 {
            return Err(ParseTokenPatternError::TooFewTokens { real: 1, expected: 12 });
        }
        let f1 = match T1::from_token(tokens[1].as_str()) {
            Ok(v) => v,
            Err(source) => {
                return Err(ParseTokenPatternError::ParseError { source: ParseTuple12Error::Field1 { source } });
            },
        };
        if tokens.len() <= 2 {
            return Err(ParseTokenPatternError::TooFewTokens { real: 2, expected: 12 });
        }
        let f2 = match T2::from_token(tokens[2].as_str()) {
            Ok(v) => v,
            Err(source) => {
                return Err(ParseTokenPatternError::ParseError { source: ParseTuple12Error::Field2 { source } });
            },
        };
        if tokens.len() <= 3 {
            return Err(ParseTokenPatternError::TooFewTokens { real: 3, expected: 12 });
        }
        let f3 = match T3::from_token(tokens[3].as_str()) {
            Ok(v) => v,
            Err(source) => {
                return Err(ParseTokenPatternError::ParseError { source: ParseTuple12Error::Field3 { source } });
            },
        };
        if tokens.len() <= 4 {
            return Err(ParseTokenPatternError::TooFewTokens { real: 4, expected: 12 });
        }
        let f4 = match T4::from_token(tokens[4].as_str()) {
            Ok(v) => v,
            Err(source) => {
                return Err(ParseTokenPatternError::ParseError { source: ParseTuple12Error::Field4 { source } });
            },
        };
        if tokens.len() <= 5 {
            return Err(ParseTokenPatternError::TooFewTokens { real: 5, expected: 12 });
        }
        let f5 = match T5::from_token(tokens[5].as_str()) {
            Ok(v) => v,
            Err(source) => {
                return Err(ParseTokenPatternError::ParseError { source: ParseTuple12Error::Field5 { source } });
            },
        };
        if tokens.len() <= 6 {
            return Err(ParseTokenPatternError::TooFewTokens { real: 6, expected: 12 });
        }
        let f6 = match T6::from_token(tokens[6].as_str()) {
            Ok(v) => v,
            Err(source) => {
                return Err(ParseTokenPatternError::ParseError { source: ParseTuple12Error::Field6 { source } });
            },
        };
        if tokens.len() <= 7 {
            return Err(ParseTokenPatternError::TooFewTokens { real: 7, expected: 12 });
        }
        let f7 = match T7::from_token(tokens[7].as_str()) {
            Ok(v) => v,
            Err(source) => {
                return Err(ParseTokenPatternError::ParseError { source: ParseTuple12Error::Field7 { source } });
            },
        };
        if tokens.len() <= 8 {
            return Err(ParseTokenPatternError::TooFewTokens { real: 8, expected: 12 });
        }
        let f8 = match T8::from_token(tokens[8].as_str()) {
            Ok(v) => v,
            Err(source) => {
                return Err(ParseTokenPatternError::ParseError { source: ParseTuple12Error::Field8 { source } });
            },
        };
        if tokens.len() <= 9 {
            return Err(ParseTokenPatternError::TooFewTokens { real: 9, expected: 12 });
        }
        let f9 = match T9::from_token(tokens[9].as_str()) {
            Ok(v) => v,
            Err(source) => {
                return Err(ParseTokenPatternError::ParseError { source: ParseTuple12Error::Field9 { source } });
            },
        };
        if tokens.len() <= 10 {
            return Err(ParseTokenPatternError::TooFewTokens { real: 10, expected: 12 });
        }
        let f10 = match T10::from_token(tokens[10].as_str()) {
            Ok(v) => v,
            Err(source) => {
                return Err(ParseTokenPatternError::ParseError { source: ParseTuple12Error::Field10 { source } });
            },
        };
        if tokens.len() <= 11 {
            return Err(ParseTokenPatternError::TooFewTokens { real: 11, expected: 12 });
        }
        let f11 = match T11::from_token(tokens[11].as_str()) {
            Ok(v) => v,
            Err(source) => {
                return Err(ParseTokenPatternError::ParseError { source: ParseTuple12Error::Field11 { source } });
            },
        };
        if tokens.len() > 12 {
            return Err(ParseTokenPatternError::TooManyTokens { expected: 12 });
        }
        Ok((f0, f1, f2, f3, f4, f5, f6, f7, f8, f9, f10, f11))
    }
}

/// The error of the field of a tuple of 13 that failed to decode.
#[derive(Debug)]
#[allow(inconsistent_fields)]
pub enum ParseTuple13Error<E0, E1, E2, E3, E4, E5, E6, E7, E8, E9, E10, E11, E12> {
    Field0 { source: E0 },
    Field1 { source: E1 },
    Field2 { source: E2 },
    Field3 { source: E3 },
    Field4 { source: E4 },
    Field5 { source: E5 },
    Field6 { source: E6 },
    Field7 { source: E7 },
    Field8 { source: E8 },
    Field9 { source: E9 },
    Field10 { source: E10 },
    Field11 { source: E11 },
    Field12 { source: E12 },
}

impl<T0: FromToken, T1: FromToken, T2: FromToken, T3: FromToken, T4: FromToken, T5: FromToken, T6: FromToken, T7: FromToken, T8: FromToken, T9: FromToken, T10: FromToken, T11: FromToken, T12: FromToken> FromTokens for (T0, T1, T2, T3, T4, T5, T6, T7, T8, T9, T10, T11, T12) {
    type Error = ParseTokenPatternError<ParseTuple13Error<T0::Err, T1::Err, T2::Err, T3::Err, T4::Err, T5::Err, T6::Err, T7::Err, T8::Err, T9::Err, T10::Err, T11::Err, T12::Err>>;

    open spec fn decodes(ts: Seq<Seq<char>>, r: Result<Self, Self::Error>) -> bool {
        match fit(13, seq![T0::accepts(ts[0]), T1::accepts(ts[1]), T2::accepts(ts[2]), T3::accepts(ts[3]), T4::accepts(ts[4]), T5::accepts(ts[5]), T6::accepts(ts[6]), T7::accepts(ts[7]), T8::accepts(ts[8]), T9::accepts(ts[9]), T10::accepts(ts[10]), T11::accepts(ts[11]), T12::accepts(ts[12])], ts.len()) {
            Fit::Fits => match r {
                Ok(v) => T0::written_by(ts[0], v.0) && T1::written_by(ts[1], v.1) && T2::written_by(ts[2], v.2) && T3::written_by(ts[3], v.3) && T4::written_by(ts[4], v.4) && T5::written_by(ts[5], v.5) && T6::written_by(ts[6], v.6) && T7::written_by(ts[7], v.7) && T8::written_by(ts[8], v.8) && T9::written_by(ts[9], v.9) && T10::written_by(ts[10], v.10) && T11::written_by(ts[11], v.11) && T12::written_by(ts[12], v.12),
                _ => false,
            },
            Fit::Unsuited(i) => match r {
                Err(ParseTokenPatternError::ParseError { source }) => match source {
                    ParseTuple13Error::Field0 { source: e } => i == 0 && T0::rejects(ts[0], e),
                    ParseTuple13Error::Field1 { source: e } => i == 1 && T1::rejects(ts[1], e),
                    ParseTuple13Error::Field2 { source: e } => i == 2 && T2::rejects(ts[2], e),
                    ParseTuple13Error::Field3 { source: e } => i == 3 && T3::rejects(ts[3], e),
                    ParseTuple13Error::Field4 { source: e } => i == 4 && T4::rejects(ts[4], e),
                    ParseTuple13Error::Field5 { source: e } => i == 5 && T5::rejects(ts[5], e),
                    ParseTuple13Error::Field6 { source: e } => i == 6 && T6::rejects(ts[6], e),
                    ParseTuple13Error::Field7 { source: e } => i == 7 && T7::rejects(ts[7], e),
                    ParseTuple13Error::Field8 { source: e } => i == 8 && T8::rejects(ts[8], e),
                    ParseTuple13Error::Field9 { source: e } => i == 9 && T9::rejects(ts[9], e),
                    ParseTuple13Error::Field10 { source: e } => i == 10 && T10::rejects(ts[10], e),
                    ParseTuple13Error::Field11 { source: e } => i == 11 && T11::rejects(ts[11], e),
                    ParseTuple13Error::Field12 { source: e } => i == 12 && T12::rejects(ts[12], e),
                },
                _ => false,
            },
            Fit::Missing(i) => match r {
                Err(ParseTokenPatternError::TooFewTokens { real: got, expected }) => got == i && expected
                    == 13,
                _ => false,
            },
            Fit::Surplus => match r {
                Err(ParseTokenPatternError::TooManyTokens { expected }) => expected == 13,
                _ => false,
            },
        }
    }

    fn from_tokens(tokens: &[String]) -> (r: Result<Self, Self::Error>) {
        proof {
            reveal_with_fuel(fit_from, 15);
        }
        if tokens.len() <= 0 {
            return Err(ParseTokenPatternError::TooFewTokens { real: 0, expected: 13 });
        }
        let f0 = match T0::from_token(tokens[0].as_str()) {
            Ok(v) => v,
            Err(source) => {
                return Err(ParseTokenPatternError::ParseError { source: ParseTuple13Error::Field0 { source } });
            },
        };
        if tokens.len() <= 1 {
            return Err(ParseTokenPatternError::TooFewTokens { real: 1, expected: 13 });
        }
        let f1 = match T1::from_token(tokens[1].as_str()) {
            Ok(v) => v,
            Err(source) => {
                return Err(ParseTokenPatternError::ParseError { source: ParseTuple13Error::Field1 { source } });
            },
        };
        if tokens.len() <= 2 {
            return Err(ParseTokenPatternError::TooFewTokens { real: 2, expected: 13 });
        }
        let f2 = match T2::from_token(tokens[2].as_str()) {
            Ok(v) => v,
            Err(source) => {
                return Err(ParseTokenPatternError::ParseError { source: ParseTuple13Error::Field2 { source } });
            },
        };
        if tokens.len() <= 3 {
            return Err(ParseTokenPatternError::TooFewTokens { real: 3, expected: 13 });
        }
        let f3 = match T3::from_token(tokens[3].as_str()) {
            Ok(v) => v,
            Err(source) => {
                return Err(ParseTokenPatternError::ParseError { source: ParseTuple13Error::Field3 { source } });
            },
        };
        if tokens.len() <= 4 {
            return Err(ParseTokenPatternError::TooFewTokens { real: 4, expected: 13 });
        }
        let f4 = match T4::from_token(tokens[4].as_str()) {
            Ok(v) => v,
            Err(source) => {
                return Err(ParseTokenPatternError::ParseError { source: ParseTuple13Error::Field4 { source } });
            },
        };
        if tokens.len() <= 5 {
            return Err(ParseTokenPatternError::TooFewTokens { real: 5, expected: 13 });
        }
        let f5 = match T5::from_token(tokens[5].as_str()) {
            Ok(v) => v,
            Err(source) => {
                return Err(ParseTokenPatternError::ParseError { source: ParseTuple13Error::Field5 { source } });
            },
        };
        if tokens.len() <= 6 {
            return Err(ParseTokenPatternError::TooFewTokens { real: 6, expected: 13 });
        }
        let f6 = match T6::from_token(tokens[6].as_str()) {
            Ok(v) => v,
            Err(source) => {
                return Err(ParseTokenPatternError::ParseError { source: ParseTuple13Error::Field6 { source } });
            },
        };
        if tokens.len() <= 7 {
            return Err(ParseTokenPatternError::TooFewTokens { real: 7, expected: 13 });
        }
        let f7 = match T7::from_token(tokens[7].as_str()) {
            Ok(v) => v,
            Err(source) => {
                return Err(ParseTokenPatternError::ParseError { source: ParseTuple13Error::Field7 { source } });
            },
        };
        if tokens.len() <= 8 {
            return Err(ParseTokenPatternError::TooFewTokens { real: 8, expected: 13 });
        }
        let f8 = match T8::from_token(tokens[8].as_str()) {
            Ok(v) => v,
            Err(source) => {
                return Err(ParseTokenPatternError::ParseError { source: ParseTuple13Error::Field8 { source } });
            },
        };
        if tokens.len() <= 9 {
            return Err(ParseTokenPatternError::TooFewTokens { real: 9, expected: 13 });
        }
        let f9 = match T9::from_token(tokens[9].as_str()) {
            Ok(v) => v,
            Err(source) => {
                return Err(ParseTokenPatternError::ParseError { source: ParseTuple13Error::Field9 { source } });
            },
        };
        if tokens.len() <= 10 {
            return Err(ParseTokenPatternError::TooFewTokens { real: 10, expected: 13 });
        }
        let f10 = match T10::from_token(tokens[10].as_str()) {
            Ok(v) => v,
            Err(source) => {
                return Err(ParseTokenPatternError::ParseError { source: ParseTuple13Error::Field10 { source } });
            },
        };
        if tokens.len() <= 11 {
            return Err(ParseTokenPatternError::TooFewTokens { real: 11, expected: 13 });
        }
        let f11 = match T11::from_token(tokens[11].as_str()) {
            Ok(v) => v,
            Err(source) => {
                return Err(ParseTokenPatternError::ParseError { source: ParseTuple13Error::Field11 { source } });
            },
        };
        if tokens.len() <= 12 {
            return Err(ParseTokenPatternError::TooFewTokens { real: 12, expected: 13 });
        }
        let f12 = match T12::from_token(tokens[12].as_str()) {
            Ok(v) => v,
            Err(source) => {
                return Err(ParseTokenPatternError::ParseError { source: ParseTuple13Error::Field12 { source } });
            },
        };
        if tokens.len() > 13 {
            return Err(ParseTokenPatternError::TooManyTokens { expected: 13 });
        }
        Ok((f0, f1, f2, f3, f4, f5, f6, f7, f8, f9, f10, f11, f12))
    }
}

/// The error of the field of a tuple of 14 that failed to decode.
#[derive(Debug)]
#[allow(inconsistent_fields)]
pub enum ParseTuple14Error<E0, E1, E2, E3, E4, E5, E6, E7, E8, E9, E10, E11, E12, E13> {
    Field0 { source: E0 },
    Field1 { source: E1 },
    Field2 { source: E2 },
    Field3 { source: E3 },
    Field4 { source: E4 },
    Field5 { source: E5 },
    Field6 { source: E6 },
    Field7 { source: E7 },
    Field8 { source: E8 },
    Field9 { source: E9 },
    Field10 { source: E10 },
    Field11 { source: E11 },
    Field12 { source: E12 },
    Field13 { source: E13 },
}

impl<T0: FromToken, T1: FromToken, T2: FromToken, T3: FromToken, T4: FromToken, T5: FromToken, T6: FromToken, T7: FromToken, T8: FromToken, T9: FromToken, T10: FromToken, T11: FromToken, T12: FromToken, T13: FromToken> FromTokens for (T0, T1, T2, T3, T4, T5, T6, T7, T8, T9, T10, T11, T12, T13) {
    type Error = ParseTokenPatternError<ParseTuple14Error<T0::Err, T1::Err, T2::Err, T3::Err, T4::Err, T5::Err, T6::Err, T7::Err, T8::Err, T9::Err, T10::Err, T11::Err, T12::Err, T13::Err>>;

    open spec fn decodes(ts: Seq<Seq<char>>, r: Result<Self, Self::Error>) -> bool {
        match fit(14, seq![T0::accepts(ts[0]), T1::accepts(ts[1]), T2::accepts(ts[2]), T3::accepts(ts[3]), T4::accepts(ts[4]), T5::accepts(ts[5]), T6::accepts(ts[6]), T7::accepts(ts[7]), T8::accepts(ts[8]), T9::accepts(ts[9]), T10::accepts(ts[10]), T11::accepts(ts[11]), T12::accepts(ts[12]), T13::accepts(ts[13])], ts.len()) {
            Fit::Fits => match r {
                Ok(v) => T0::written_by(ts[0], v.0) && T1::written_by(ts[1], v.1) && T2::written_by(ts[2], v.2) && T3::written_by(ts[3], v.3) && T4::written_by(ts[4], v.4) && T5::written_by(ts[5], v.5) && T6::written_by(ts[6], v.6) && T7::written_by(ts[7], v.7) && T8::written_by(ts[8], v.8) && T9::written_by(ts[9], v.9) && T10::written_by(ts[10], v.10) && T11::written_by(ts[11], v.11) && T12::written_by(ts[12], v.12) && T13::written_by(ts[13], v.13),
                _ => false,
            },
            Fit::Unsuited(i) => match r {
                Err(ParseTokenPatternError::ParseError { source }) => match source {
                    ParseTuple14Error::Field0 { source: e } => i == 0 && T0::rejects(ts[0], e),
                    ParseTuple14Error::Field1 { source: e } => i == 1 && T1::rejects(ts[1], e),
                    ParseTuple14Error::Field2 { source: e } => i == 2 && T2::rejects(ts[2], e),
                    ParseTuple14Error::Field3 { source: e } => i == 3 && T3::rejects(ts[3], e),
                    ParseTuple14Error::Field4 { source: e } => i == 4 && T4::rejects(ts[4], e),
                    ParseTuple14Error::Field5 { source: e } => i == 5 && T5::rejects(ts[5], e),
                    ParseTuple14Error::Field6 { source: e } => i == 6 && T6::rejects(ts[6], e),
                    ParseTuple14Error::Field7 { source: e } => i == 7 && T7::rejects(ts[7], e),
                    ParseTuple14Error::Field8 { source: e } => i == 8 && T8::rejects(ts[8], e),
                    ParseTuple14Error::Field9 { source: e } => i == 9 && T9::rejects(ts[9], e),
                    ParseTuple14Error::Field10 { source: e } => i == 10 && T10::rejects(ts[10], e),
                    ParseTuple14Error::Field11 { source: e } => i == 11 && T11::rejects(ts[11], e),
                    ParseTuple14Error::Field12 { source: e } => i == 12 && T12::rejects(ts[12], e),
                    ParseTuple14Error::Field13 { source: e } => i == 13 && T13::rejects(ts[13], e),
                },
                _ => false,
            },
            Fit::Missing(i) => match r {
                Err(ParseTokenPatternError::TooFewTokens { real: got, expected }) => got == i && expected
                    == 14,
                _ => false,
            },
            Fit::Surplus => match r {
                Err(ParseTokenPatternError::TooManyTokens { expected }) => expected == 14,
                _ => false,
            },
        }
    }

    fn from_tokens(tokens: &[String]) -> (r: Result<Self, Self::Error>) {
        proof {
            reveal_with_fuel(fit_from, 16);
        }
        if tokens.len() <= 0 {
            return Err(ParseTokenPatternError::TooFewTokens { real: 0, expected: 14 });
        }
        let f0 = match T0::from_token(tokens[0].as_str()) {
            Ok(v) => v,
            Err(source) => {
                return Err(ParseTokenPatternError::ParseError { source: ParseTuple14Error::Field0 { source } });
            },
        };
        if tokens.len() <= 1 {
            return Err(ParseTokenPatternError::TooFewTokens { real: 1, expected: 14 });
        }
        let f1 = match T1::from_token(tokens[1].as_str()) {
            Ok(v) => v,
            Err(source) => {
                return Err(ParseTokenPatternError::ParseError { source: ParseTuple14Error::Field1 { source } });
            },
        };
        if tokens.len() <= 2 {
            return Err(ParseTokenPatternError::TooFewTokens { real: 2, expected: 14 });
        }
        let f2 = match T2::from_token(tokens[2].as_str()) {
            Ok(v) => v,
            Err(source) => {
                return Err(ParseTokenPatternError::ParseError { source: ParseTuple14Error::Field2 { source } });
            },
        };
        if tokens.len() <= 3 {
            return Err(ParseTokenPatternError::TooFewTokens { real: 3, expected: 14 });
        }
        let f3 = match T3::from_token(tokens[3].as_str()) {
            Ok(v) => v,
            Err(source) => {
                return Err(ParseTokenPatternError::ParseError { source: ParseTuple14Error::Field3 { source } });
            },
        };
        if tokens.len() <= 4 {
            return Err(ParseTokenPatternError::TooFewTokens { real: 4, expected: 14 });
        }
        let f4 = match T4::from_token(tokens[4].as_str()) {
            Ok(v) => v,
            Err(source) => {
                return Err(ParseTokenPatternError::ParseError { source: ParseTuple14Error::Field4 { source } });
            },
        };
        if tokens.len() <= 5 {
            return Err(ParseTokenPatternError::TooFewTokens { real: 5, expected: 14 });
        }
        let f5 = match T5::from_token(tokens[5].as_str()) {
            Ok(v) => v,
            Err(source) => {
                return Err(ParseTokenPatternError::ParseError { source: ParseTuple14Error::Field5 { source } });
            },
        };
        if tokens.len() <= 6 {
            return Err(ParseTokenPatternError::TooFewTokens { real: 6, expected: 14 });
        }
        let f6 = match T6::from_token(tokens[6].as_str()) {
            Ok(v) => v,
            Err(source) => {
                return Err(ParseTokenPatternError::ParseError { source: ParseTuple14Error::Field6 { source } });
            },
        };
        if tokens.len() <= 7 {
            return Err(ParseTokenPatternError::TooFewTokens { real: 7, expected: 14 });
        }
        let f7 = match T7::from_token(tokens[7].as_str()) {
            Ok(v) => v,
            Err(source) => {
                return Err(ParseTokenPatternError::ParseError { source: ParseTuple14Error::Field7 { source } });
            },
        };
        if tokens.len() <= 8 {
            return Err(ParseTokenPatternError::TooFewTokens { real: 8, expected: 14 });
        }
        let f8 = match T8::from_token(tokens[8].as_str()) {
            Ok(v) => v,
            Err(source) => {
                return Err(ParseTokenPatternError::ParseError { source: ParseTuple14Error::Field8 { source } });
            },
        };
        if tokens.len() <= 9 {
            return Err(ParseTokenPatternError::TooFewTokens { real: 9, expected: 14 });
        }
        let f9 = match T9::from_token(tokens[9].as_str()) {
            Ok(v) => v,
            Err(source) => {
                return Err(ParseTokenPatternError::ParseError { source: ParseTuple14Error::Field9 { source } });
            },
        };
        if tokens.len() <= 10 {
            return Err(ParseTokenPatternError::TooFewTokens { real: 10, expected: 14 });
        }
        let f10 = match T10::from_token(tokens[10].as_str()) {
            Ok(v) => v,
            Err(source) => {
                return Err(ParseTokenPatternError::ParseError { source: ParseTuple14Error::Field10 { source } });
            },
        };
        if tokens.len() <= 11 {
            return Err(ParseTokenPatternError::TooFewTokens { real: 11, expected: 14 });
        }
        let f11 = match T11::from_token(tokens[11].as_str()) {
            Ok(v) => v,
            Err(source) => {
                return Err(ParseTokenPatternError::ParseError { source: ParseTuple14Error::Field11 { source } });
            },
        };
        if tokens.len() <= 12 {
            return Err(ParseTokenPatternError::TooFewTokens { real: 12, expected: 14 });
        }
        let f12 = match T12::from_token(tokens[12].as_str()) {
            Ok(v) => v,
            Err(source) => {
                return Err(ParseTokenPatternError::ParseError { source: ParseTuple14Error::Field12 { source } });
            },
        };
        if tokens.len() <= 13 {
            return Err(ParseTokenPatternError::TooFewTokens { real: 13, expected: 14 });
        }
        let f13 = match T13::from_token(tokens[13].as_str()) {
            Ok(v) => v,
            Err(source) => {
                return Err(ParseTokenPatternError::ParseError { source: ParseTuple14Error::Field13 { source } });
            },
        };
        if tokens.len() > 14 {
            return Err(ParseTokenPatternError::TooManyTokens { expected: 14 });
        }
        Ok((f0, f1, f2, f3, f4, f5, f6, f7, f8, f9, f10, f11, f12, f13))
    }
}

/// The error of the field of a tuple of 15 that failed to decode.
#[derive(Debug)]
#[allow(inconsistent_fields)]
pub enum ParseTuple15Error<E0, E1, E2, E3, E4, E5, E6, E7, E8, E9, E10, E11, E12, E13, E14> {
    Field0 { source: E0 },
    Field1 { source: E1 },
    Field2 { source: E2 },
    Field3 { source: E3 },
    Field4 { source: E4 },
    Field5 { source: E5 },
    Field6 { source: E6 },
    Field7 { source: E7 },
    Field8 { source: E8 },
    Field9 { source: E9 },
    Field10 { source: E10 },
    Field11 { source: E11 },
    Field12 { source: E12 },
    Field13 { source: E13 },
    Field14 { source: E14 },
}

impl<T0: FromToken, T1: FromToken, T2: FromToken, T3: FromToken, T4: FromToken, T5: FromToken, T6: FromToken, T7: FromToken, T8: FromToken, T9: FromToken, T10: FromToken, T11: FromToken, T12: FromToken, T13: FromToken, T14: FromToken> FromTokens for (T0, T1, T2, T3, T4, T5, T6, T7, T8, T9, T10, T11, T12, T13, T14) {
    type Error = ParseTokenPatternError<ParseTuple15Error<T0::Err, T1::Err, T2::Err, T3::Err, T4::Err, T5::Err, T6::Err, T7::Err, T8::Err, T9::Err, T10::Err, T11::Err, T12::Err, T13::Err, T14::Err>>;

    open spec fn decodes(ts: Seq<Seq<char>>, r: Result<Self, Self::Error>) -> bool {
        match fit(15, seq![T0::accepts(ts[0]), T1::accepts(ts[1]), T2::accepts(ts[2]), T3::accepts(ts[3]), T4::accepts(ts[4]), T5::accepts(ts[5]), T6::accepts(ts[6]), T7::accepts(ts[7]), T8::accepts(ts[8]), T9::accepts(ts[9]), T10::accepts(ts[10]), T11::accepts(ts[11]), T12::accepts(ts[12]), T13::accepts(ts[13]), T14::accepts(ts[14])], ts.len()) {
            Fit::Fits => match r {
                Ok(v) => T0::written_by(ts[0], v.0) && T1::written_by(ts[1], v.1) && T2::written_by(ts[2], v.2) && T3::written_by(ts[3], v.3) && T4::written_by(ts[4], v.4) && T5::written_by(ts[5], v.5) && T6::written_by(ts[6], v.6) && T7::written_by(ts[7], v.7) && T8::written_by(ts[8], v.8) && T9::written_by(ts[9], v.9) && T10::written_by(ts[10], v.10) && T11::written_by(ts[11], v.11) && T12::written_by(ts[12], v.12) && T13::written_by(ts[13], v.13) && T14::written_by(ts[14], v.14),
                _ => false,
            },
            Fit::Unsuited(i) => match r {
                Err(ParseTokenPatternError::ParseError { source }) => match source {
                    ParseTuple15Error::Field0 { source: e } => i == 0 && T0::rejects(ts[0], e),
                    ParseTuple15Error::Field1 { source: e } => i == 1 && T1::rejects(ts[1], e),
                    ParseTuple15Error::Field2 { source: e } => i == 2 && T2::rejects(ts[2], e),
                    ParseTuple15Error::Field3 { source: e } => i == 3 && T3::rejects(ts[3], e),
                    ParseTuple15Error::Field4 { source: e } => i == 4 && T4::rejects(ts[4], e),
                    ParseTuple15Error::Field5 { source: e } => i == 5 && T5::rejects(ts[5], e),
                    ParseTuple15Error::Field6 { source: e } => i == 6 && T6::rejects(ts[6], e),
                    ParseTuple15Error::Field7 { source: e } => i == 7 && T7::rejects(ts[7], e),
                    ParseTuple15Error::Field8 { source: e } => i == 8 && T8::rejects(ts[8], e),
                    ParseTuple15Error::Field9 { source: e } => i == 9 && T9::rejects(ts[9], e),
                    ParseTuple15Error::Field10 { source: e } => i == 10 && T10::rejects(ts[10], e),
                    ParseTuple15Error::Field11 { source: e } => i == 11 && T11::rejects(ts[11], e),
                    ParseTuple15Error::Field12 { source: e } => i == 12 && T12::rejects(ts[12], e),
                    ParseTuple15Error::Field13 { source: e } => i == 13 && T13::rejects(ts[13], e),
                    ParseTuple15Error::Field14 { source: e } => i == 14 && T14::rejects(ts[14], e),
                },
                _ => false,
            },
            Fit::Missing(i) => match r {
                Err(ParseTokenPatternError::TooFewTokens { real: got, expected }) => got == i && expected
                    == 15,
                _ => false,
            },
            Fit::Surplus => match r {
                Err(ParseTokenPatternError::TooManyTokens { expected }) => expected == 15,
                _ => false,
            },
        }
    }

    fn from_tokens(tokens: &[String]) -> (r: Result<Self, Self::Error>) {
        proof {
            reveal_with_fuel(fit_from, 17);
        }
        if tokens.len() <= 0 {
            return Err(ParseTokenPatternError::TooFewTokens { real: 0, expected: 15 });
        }
        let f0 = match T0::from_token(tokens[0].as_str()) {
            Ok(v) => v,
            Err(source) => {
                return Err(ParseTokenPatternError::ParseError { source: ParseTuple15Error::Field0 { source } });
            },
        };
        if tokens.len() <= 1 {
            return Err(ParseTokenPatternError::TooFewTokens { real: 1, expected: 15 });
        }
        let f1 = match T1::from_token(tokens[1].as_str()) {
            Ok(v) => v,
            Err(source) => {
                return Err(ParseTokenPatternError::ParseError { source: ParseTuple15Error::Field1 { source } });
            },
        };
        if tokens.len() <= 2 {
            return Err(ParseTokenPatternError::TooFewTokens { real: 2, expected: 15 });
        }
        let f2 = match T2::from_token(tokens[2].as_str()) {
            Ok(v) => v,
            Err(source) => {
                return Err(ParseTokenPatternError::ParseError { source: ParseTuple15Error::Field2 { source } });
            },
        };
        if tokens.len() <= 3 {
            return Err(ParseTokenPatternError::TooFewTokens { real: 3, expected: 15 });
        }
        let f3 = match T3::from_token(tokens[3].as_str()) {
            Ok(v) => v,
            Err(source) => {
                return Err(ParseTokenPatternError::ParseError { source: ParseTuple15Error::Field3 { source } });
            },
        };
        if tokens.len() <= 4 {
            return Err(ParseTokenPatternError::TooFewTokens { real: 4, expected: 15 });
        }
        let f4 = match T4::from_token(tokens[4].as_str()) {
            Ok(v) => v,
            Err(source) => {
                return Err(ParseTokenPatternError::ParseError { source: ParseTuple15Error::Field4 { source } });
            },
        };
        if tokens.len() <= 5 {
            return Err(ParseTokenPatternError::TooFewTokens { real: 5, expected: 15 });
        }
        let f5 = match T5::from_token(tokens[5].as_str()) {
            Ok(v) => v,
            Err(source) => {
                return Err(ParseTokenPatternError::ParseError { source: ParseTuple15Error::Field5 { source } });
            },
        };
        if tokens.len() <= 6 {
            return Err(ParseTokenPatternError::TooFewTokens { real: 6, expected: 15 });
        }
        let f6 = match T6::from_token(tokens[6].as_str()) {
            Ok(v) => v,
            Err(source) => {
                return Err(ParseTokenPatternError::ParseError { source: ParseTuple15Error::Field6 { source } });
            },
        };
        if tokens.len() <= 7 {
            return Err(ParseTokenPatternError::TooFewTokens { real: 7, expected: 15 });
        }
        let f7 = match T7::from_token(tokens[7].as_str()) {
            Ok(v) => v,
            Err(source) => {
                return Err(ParseTokenPatternError::ParseError { source: ParseTuple15Error::Field7 { source } });
            },
        };
        if tokens.len() <= 8 {
            return Err(ParseTokenPatternError::TooFewTokens { real: 8, expected: 15 });
        }
        let f8 = match T8::from_token(tokens[8].as_str()) {
            Ok(v) => v,
            Err(source) => {
                return Err(ParseTokenPatternError::ParseError { source: ParseTuple15Error::Field8 { source } });
            },
        };
        if tokens.len() <= 9 {
            return Err(ParseTokenPatternError::TooFewTokens { real: 9, expected: 15 });
        }
        let f9 = match T9::from_token(tokens[9].as_str()) {
            Ok(v) => v,
            Err(source) => {
                return Err(ParseTokenPatternError::ParseError { source: ParseTuple15Error::Field9 { source } });
            },
        };
        if tokens.len() <= 10 {
            return Err(ParseTokenPatternError::TooFewTokens { real: 10, expected: 15 });
        }
        let f10 = match T10::from_token(tokens[10].as_str()) {
            Ok(v) => v,
            Err(source) => {
                return Err(ParseTokenPatternError::ParseError { source: ParseTuple15Error::Field10 { source } });
            },
        };
        if tokens.len() <= 11 {
            return Err(ParseTokenPatternError::TooFewTokens { real: 11, expected: 15 });
        }
        let f11 = match T11::from_token(tokens[11].as_str()) {
            Ok(v) => v,
            Err(source) => {
                return Err(ParseTokenPatternError::ParseError { source: ParseTuple15Error::Field11 { source } });
            },
        };
        if tokens.len() <= 12 {
            return Err(ParseTokenPatternError::TooFewTokens { real: 12, expected: 15 });
        }
        let f12 = match T12::from_token(tokens[12].as_str()) {
            Ok(v) => v,
            Err(source) => {
                return Err(ParseTokenPatternError::ParseError { source: ParseTuple15Error::Field12 { source } });
            },
        };
        if tokens.len() <= 13 {
            return Err(ParseTokenPatternError::TooFewTokens { real: 13, expected: 15 });
        }
        let f13 = match T13::from_token(tokens[13].as_str()) {
            Ok(v) => v,
            Err(source) => {
                return Err(ParseTokenPatternError::ParseError { source: ParseTuple15Error::Field13 { source } });
            },
        };
        if tokens.len() <= 14 {
            return Err(ParseTokenPatternError::TooFewTokens { real: 14, expected: 15 });
        }
        let f14 = match T14::from_token(tokens[14].as_str()) {
            Ok(v) => v,
            Err(source) => {
                return Err(ParseTokenPatternError::ParseError { source: ParseTuple15Error::Field14 { source } });
            },
        };
        if tokens.len() > 15 {
            return Err(ParseTokenPatternError::TooManyTokens { expected: 15 });
        }
        Ok((f0, f1, f2, f3, f4, f5, f6, f7, f8, f9, f10, f11, f12, f13, f14))
    }
}

/// The error of the field of a tuple of 16 that failed to decode.
#[derive(Debug)]
#[allow(inconsistent_fields)]
pub enum ParseTuple16Error<E0, E1, E2, E3, E4, E5, E6, E7, E8, E9, E10, E11, E12, E13, E14, E15> {
    Field0 { source: E0 },
    Field1 { source: E1 },
    Field2 { source: E2 },
    Field3 { source: E3 },
    Field4 { source: E4 },
    Field5 { source: E5 },
    Field6 { source: E6 },
    Field7 { source: E7 },
    Field8 { source: E8 },
    Field9 { source: E9 },
    Field10 { source: E10 },
    Field11 { source: E11 },
    Field12 { source: E12 },
    Field13 { source: E13 },
    Field14 { source: E14 },
    Field15 { source: E15 },
}

impl<T0: FromToken, T1: FromToken, T2: FromToken, T3: FromToken, T4: FromToken, T5: FromToken, T6: FromToken, T7: FromToken, T8: FromToken, T9: FromToken, T10: FromToken, T11: FromToken, T12: FromToken, T13: FromToken, T14: FromToken, T15: FromToken> FromTokens for (T0, T1, T2, T3, T4, T5, T6, T7, T8, T9, T10, T11, T12, T13, T14, T15) {
    type Error = ParseTokenPatternError<ParseTuple16Error<T0::Err, T1::Err, T2::Err, T3::Err, T4::Err, T5::Err, T6::Err, T7::Err, T8::Err, T9::Err, T10::Err, T11::Err, T12::Err, T13::Err, T14::Err, T15::Err>>;

    open spec fn decodes(ts: Seq<Seq<char>>, r: Result<Self, Self::Error>) -> bool {
        match fit(16, seq![T0::accepts(ts[0]), T1::accepts(ts[1]), T2::accepts(ts[2]), T3::accepts(ts[3]), T4::accepts(ts[4]), T5::accepts(ts[5]), T6::accepts(ts[6]), T7::accepts(ts[7]), T8::accepts(ts[8]), T9::accepts(ts[9]), T10::accepts(ts[10]), T11::accepts(ts[11]), T12::accepts(ts[12]), T13::accepts(ts[13]), T14::accepts(ts[14]), T15::accepts(ts[15])], ts.len()) {
            Fit::Fits => match r {
                Ok(v) => T0::written_by(ts[0], v.0) && T1::written_by(ts[1], v.1) && T2::written_by(ts[2], v.2) && T3::written_by(ts[3], v.3) && T4::written_by(ts[4], v.4) && T5::written_by(ts[5], v.5) && T6::written_by(ts[6], v.6) && T7::written_by(ts[7], v.7) && T8::written_by(ts[8], v.8) && T9::written_by(ts[9], v.9) && T10::written_by(ts[10], v.10) && T11::written_by(ts[11], v.11) && T12::written_by(ts[12], v.12) && T13::written_by(ts[13], v.13) && T14::written_by(ts[14], v.14) && T15::written_by(ts[15], v.15),
                _ => false,
            },
            Fit::Unsuited(i) => match r {
                Err(ParseTokenPatternError::ParseError { source }) => match source {
                    ParseTuple16Error::Field0 { source: e } => i == 0 && T0::rejects(ts[0], e),
                    ParseTuple16Error::Field1 { source: e } => i == 1 && T1::rejects(ts[1], e),
                    ParseTuple16Error::Field2 { source: e } => i == 2 && T2::rejects(ts[2], e),
                    ParseTuple16Error::Field3 { source: e } => i == 3 && T3::rejects(ts[3], e),
                    ParseTuple16Error::Field4 { source: e } => i == 4 && T4::rejects(ts[4], e),
                    ParseTuple16Error::Field5 { source: e } => i == 5 && T5::rejects(ts[5], e),
                    ParseTuple16Error::Field6 { source: e } => i == 6 && T6::rejects(ts[6], e),
                    ParseTuple16Error::Field7 { source: e } => i == 7 && T7::rejects(ts[7], e),
                    ParseTuple16Error::Field8 { source: e } => i == 8 && T8::rejects(ts[8], e),
                    ParseTuple16Error::Field9 { source: e } => i == 9 && T9::rejects(ts[9], e),
                    ParseTuple16Error::Field10 { source: e } => i == 10 && T10::rejects(ts[10], e),
                    ParseTuple16Error::Field11 { source: e } => i == 11 && T11::rejects(ts[11], e),
                    ParseTuple16Error::Field12 { source: e } => i == 12 && T12::rejects(ts[12], e),
                    ParseTuple16Error::Field13 { source: e } => i == 13 && T13::rejects(ts[13], e),
                    ParseTuple16Error::Field14 { source: e } => i == 14 && T14::rejects(ts[14], e),
                    ParseTuple16Error::Field15 { source: e } => i == 15 && T15::rejects(ts[15], e),
                },
                _ => false,
            },
            Fit::Missing(i) => match r {
                Err(ParseTokenPatternError::TooFewTokens { real: got, expected }) => got == i && expected
                    == 16,
                _ => false,
            },
            Fit::Surplus => match r {
                Err(ParseTokenPatternError::TooManyTokens { expected }) => expected == 16,
                _ => false,
            },
        }
    }

    fn from_tokens(tokens: &[String]) -> (r: Result<Self, Self::Error>) {
        proof {
            reveal_with_fuel(fit_from, 18);
        }
        if tokens.len() <= 0 {
            return Err(ParseTokenPatternError::TooFewTokens { real: 0, expected: 16 });
        }
        let f0 = match T0::from_token(tokens[0].as_str()) {
            Ok(v) => v,
            Err(source) => {
                return Err(ParseTokenPatternError::ParseError { source: ParseTuple16Error::Field0 { source } });
            },
        };
        if tokens.len() <= 1 {
            return Err(ParseTokenPatternError::TooFewTokens { real: 1, expected: 16 });
        }
        let f1 = match T1::from_token(tokens[1].as_str()) {
            Ok(v) => v,
            Err(source) => {
                return Err(ParseTokenPatternError::ParseError { source: ParseTuple16Error::Field1 { source } });
            },
        };
        if tokens.len() <= 2 {
            return Err(ParseTokenPatternError::TooFewTokens { real: 2, expected: 16 });
        }
        let f2 = match T2::from_token(tokens[2].as_str()) {
            Ok(v) => v,
            Err(source) => {
                return Err(ParseTokenPatternError::ParseError { source: ParseTuple16Error::Field2 { source } });
            },
        };
        if tokens.len() <= 3 {
            return Err(ParseTokenPatternError::TooFewTokens { real: 3, expected: 16 });
        }
        let f3 = match T3::from_token(tokens[3].as_str()) {
            Ok(v) => v,
            Err(source) => {
                return Err(ParseTokenPatternError::ParseError { source: ParseTuple16Error::Field3 { source } });
            },
        };
        if tokens.len() <= 4 {
            return Err(ParseTokenPatternError::TooFewTokens { real: 4, expected: 16 });
        }
        let f4 = match T4::from_token(tokens[4].as_str()) {
            Ok(v) => v,
            Err(source) => {
                return Err(ParseTokenPatternError::ParseError { source: ParseTuple16Error::Field4 { source } });
            },
        };
        if tokens.len() <= 5 {
            return Err(ParseTokenPatternError::TooFewTokens { real: 5, expected: 16 });
        }
        let f5 = match T5::from_token(tokens[5].as_str()) {
            Ok(v) => v,
            Err(source) => {
                return Err(ParseTokenPatternError::ParseError { source: ParseTuple16Error::Field5 { source } });
            },
        };
        if tokens.len() <= 6 {
            return Err(ParseTokenPatternError::TooFewTokens { real: 6, expected: 16 });
        }
        let f6 = match T6::from_token(tokens[6].as_str()) {
            Ok(v) => v,
            Err(source) => {
                return Err(ParseTokenPatternError::ParseError { source: ParseTuple16Error::Field6 { source } });
            },
        };
        if tokens.len() <= 7 {
            return Err(ParseTokenPatternError::TooFewTokens { real: 7, expected: 16 });
        }
        let f7 = match T7::from_token(tokens[7].as_str()) {
            Ok(v) => v,
            Err(source) => {
                return Err(ParseTokenPatternError::ParseError { source: ParseTuple16Error::Field7 { source } });
            },
        };
        if tokens.len() <= 8 {
            return Err(ParseTokenPatternError::TooFewTokens { real: 8, expected: 16 });
        }
        let f8 = match T8::from_token(tokens[8].as_str()) {
            Ok(v) => v,
            Err(source) => {
                return Err(ParseTokenPatternError::ParseError { source: ParseTuple16Error::Field8 { source } });
            },
        };
        if tokens.len() <= 9 {
            return Err(ParseTokenPatternError::TooFewTokens { real: 9, expected: 16 });
        }
        let f9 = match T9::from_token(tokens[9].as_str()) {
            Ok(v) => v,
            Err(source) => {
                return Err(ParseTokenPatternError::ParseError { source: ParseTuple16Error::Field9 { source } });
            },
        };
        if tokens.len() <= 10 {
            return Err(ParseTokenPatternError::TooFewTokens { real: 10, expected: 16 });
        }
        let f10 = match T10::from_token(tokens[10].as_str()) {
            Ok(v) => v,
            Err(source) => {
                return Err(ParseTokenPatternError::ParseError { source: ParseTuple16Error::Field10 { source } });
            },
        };
        if tokens.len() <= 11 {
            return Err(ParseTokenPatternError::TooFewTokens { real: 11, expected: 16 });
        }
        let f11 = match T11::from_token(tokens[11].as_str()) {
            Ok(v) => v,
            Err(source) => {
                return Err(ParseTokenPatternError::ParseError { source: ParseTuple16Error::Field11 { source } });
            },
        };
        if tokens.len() <= 12 {
            return Err(ParseTokenPatternError::TooFewTokens { real: 12, expected: 16 });
        }
        let f12 = match T12::from_token(tokens[12].as_str()) {
            Ok(v) => v,
            Err(source) => {
                return Err(ParseTokenPatternError::ParseError { source: ParseTuple16Error::Field12 { source } });
            },
        };
        if tokens.len() <= 13 {
            return Err(ParseTokenPatternError::TooFewTokens { real: 13, expected: 16 });
        }
        let f13 = match T13::from_token(tokens[13].as_str()) {
            Ok(v) => v,
            Err(source) => {
                return Err(ParseTokenPatternError::ParseError { source: ParseTuple16Error::Field13 { source } });
            },
        };
        if tokens.len() <= 14 {
            return Err(ParseTokenPatternError::TooFewTokens { real: 14, expected: 16 });
        }
        let f14 = match T14::from_token(tokens[14].as_str()) {
            Ok(v) => v,
            Err(source) => {
                return Err(ParseTokenPatternError::ParseError { source: ParseTuple16Error::Field14 { source } });
            },
        };
        if tokens.len() <= 15 {
            return Err(ParseTokenPatternError::TooFewTokens { real: 15, expected: 16 });
        }
        let f15 = match T15::from_token(tokens[15].as_str()) {
            Ok(v) => v,
            Err(source) => {
                return Err(ParseTokenPatternError::ParseError { source: ParseTuple16Error::Field15 { source } });
            },
        };
        if tokens.len() > 16 {
            return Err(ParseTokenPatternError::TooManyTokens { expected: 16 });
        }
        Ok((f0, f1, f2, f3, f4, f5, f6, f7, f8, f9, f10, f11, f12, f13, f14, f15))
    }
}

} // verus!
