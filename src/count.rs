use vstd::prelude::*;

verus! {

/// A number of lines, in any of the unsigned integer types.
pub trait LineCount {
    /// The number.
    spec fn count(&self) -> nat;

    /// Lowers the number by one, unless it is zero.
    fn decrement(&mut self)
        ensures
            final(self).count() == (if old(self).count() == 0 {
                0
            } else {
                (old(self).count() - 1) as nat
            }),
    ;

    /// Whether the number is zero.
    fn empty(&self) -> (r: bool)
        ensures
            r == (self.count() == 0),
    ;
}

impl LineCount for u8 {
    open spec fn count(&self) -> nat {
        *self as nat
    }

    fn decrement(&mut self) {
        *self = self.saturating_sub(1);
    }

    fn empty(&self) -> (r: bool) {
        *self == 0
    }
}

impl LineCount for u16 {
    open spec fn count(&self) -> nat {
        *self as nat
    }

    fn decrement(&mut self) {
        *self = self.saturating_sub(1);
    }

    fn empty(&self) -> (r: bool) {
        *self == 0
    }
}

impl LineCount for u32 {
    open spec fn count(&self) -> nat {
        *self as nat
    }

    fn decrement(&mut self) {
        *self = self.saturating_sub(1);
    }

    fn empty(&self) -> (r: bool) {
        *self == 0
    }
}

impl LineCount for u64 {
    open spec fn count(&self) -> nat {
        *self as nat
    }

    fn decrement(&mut self) {
        *self = self.saturating_sub(1);
    }

    fn empty(&self) -> (r: bool) {
        *self == 0
    }
}

impl LineCount for u128 {
    open spec fn count(&self) -> nat {
        *self as nat
    }

    fn decrement(&mut self) {
        *self = self.saturating_sub(1);
    }

    fn empty(&self) -> (r: bool) {
        *self == 0
    }
}

impl LineCount for usize {
    open spec fn count(&self) -> nat {
        *self as nat
    }

    fn decrement(&mut self) {
        *self = self.saturating_sub(1);
    }

    fn empty(&self) -> (r: bool) {
        *self == 0
    }
}

} // verus!
