use core::marker::PhantomData;
use vstd::prelude::*;

use crate::reader::reads_record;
use crate::{FromTokens, LineCount, ReadTokensError, TokenReader};

verus! {

/// Decides one step of a bounded read of lines: whether a line is to be read
/// now, lowering the count of lines still to read when it is.
pub fn take_step<S: LineCount>(remaining: &mut S) -> (r: bool)
    ensures
        r == (old(remaining).count() > 0),
        final(remaining).count() == (if r {
            (old(remaining).count() - 1) as nat
        } else {
            0
        }),
{
    if !remaining.empty() {
        remaining.decrement();
        true
    } else {
        false
    }
}

/// Reads and decodes a bounded number of lines from a borrowed reader, one
/// line for each call of `next`.
#[derive(Debug)]
pub struct Take<'a, T, S> {
    reader: &'a mut TokenReader,
    remaining: S,
    phantom: PhantomData<T>,
}

impl<'a, T: FromTokens, S: LineCount> Take<'a, T, S> {
    /// The number of lines still to read.
    pub closed spec fn remaining(&self) -> nat {
        self.remaining.count()
    }

    /// The input left in the borrowed reader.
    pub closed spec fn input(&self) -> Seq<u8> {
        (*self.reader)@
    }

    /// Creates a reader of `count` lines of `reader`.
    pub fn new(reader: &'a mut TokenReader, count: S) -> (r: Self)
        ensures
            r.remaining() == count.count(),
            r.input() == old(reader)@,
    {
        Take { reader, remaining: count, phantom: PhantomData }
    }

    /// Reads and decodes the next line, while lines remain to be read.
    pub fn next(&mut self) -> (r: Option<Result<T, ReadTokensError<T::Error>>>)
        ensures
            old(self).remaining() == 0 ==> r is None && final(self).remaining() == 0
                && final(self).input() == old(self).input(),
            old(self).remaining() > 0 ==> (r matches Some(x) && final(self).remaining()
                == old(self).remaining() - 1 && reads_record::<T>(
                old(self).input(),
                final(self).input(),
                x,
            )),
    {
        if take_step(&mut self.remaining) {
            Some(self.reader.line())
        } else {
            None
        }
    }
}

} // verus!
