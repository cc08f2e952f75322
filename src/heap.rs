use vstd::prelude::*;

verus! {

/// A value ordered by an integer key, as the integer types are by their value.
pub trait HeapKey: Sized {
    /// The key by which the value is ordered.
    spec fn key(&self) -> int;

    /// Whether this value orders below `other`.
    fn below(&self, other: &Self) -> (r: bool)
        ensures
            r == (self.key() < other.key()),
    ;
}

impl HeapKey for u8 {
    open spec fn key(&self) -> int {
        *self as int
    }

    fn below(&self, other: &Self) -> (r: bool) {
        *self < *other
    }
}

impl HeapKey for u16 {
    open spec fn key(&self) -> int {
        *self as int
    }

    fn below(&self, other: &Self) -> (r: bool) {
        *self < *other
    }
}

impl HeapKey for u32 {
    open spec fn key(&self) -> int {
        *self as int
    }

    fn below(&self, other: &Self) -> (r: bool) {
        *self < *other
    }
}

impl HeapKey for u64 {
    open spec fn key(&self) -> int {
        *self as int
    }

    fn below(&self, other: &Self) -> (r: bool) {
        *self < *other
    }
}

impl HeapKey for u128 {
    open spec fn key(&self) -> int {
        *self as int
    }

    fn below(&self, other: &Self) -> (r: bool) {
        *self < *other
    }
}

impl HeapKey for usize {
    open spec fn key(&self) -> int {
        *self as int
    }

    fn below(&self, other: &Self) -> (r: bool) {
        *self < *other
    }
}

impl HeapKey for i8 {
    open spec fn key(&self) -> int {
        *self as int
    }

    fn below(&self, other: &Self) -> (r: bool) {
        *self < *other
    }
}

impl HeapKey for i16 {
    open spec fn key(&self) -> int {
        *self as int
    }

    fn below(&self, other: &Self) -> (r: bool) {
        *self < *other
    }
}

impl HeapKey for i32 {
    open spec fn key(&self) -> int {
        *self as int
    }

    fn below(&self, other: &Self) -> (r: bool) {
        *self < *other
    }
}

impl HeapKey for i64 {
    open spec fn key(&self) -> int {
        *self as int
    }

    fn below(&self, other: &Self) -> (r: bool) {
        *self < *other
    }
}

impl HeapKey for i128 {
    open spec fn key(&self) -> int {
        *self as int
    }

    fn below(&self, other: &Self) -> (r: bool) {
        *self < *other
    }
}

impl HeapKey for isize {
    open spec fn key(&self) -> int {
        *self as int
    }

    fn below(&self, other: &Self) -> (r: bool) {
        *self < *other
    }
}

/// Whether no item of `s` has a larger key than an item before it.
pub open spec fn largest_first<T: HeapKey>(s: Seq<T>) -> bool {
    forall|i: int, j: int|
        #![trigger s[i].key(), s[j].key()]
        0 <= i < j < s.len() ==> s[j].key() <= s[i].key()
}

/// A priority collection: its items, kept largest first.
#[derive(Debug)]
pub struct MaxHeap<T: HeapKey> {
    items: Vec<T>,
}

impl<T: HeapKey> View for MaxHeap<T> {
    type V = Seq<T>;

    /// The items, largest first.
    closed spec fn view(&self) -> Seq<T> {
        self.items@
    }
}

impl<T: HeapKey> MaxHeap<T> {
    /// Whether the items are kept largest first, as every heap made by
    /// `new` and changed by `push` and `pop` is.
    pub open spec fn wf(&self) -> bool {
        largest_first(self@)
    }

    /// Creates an empty heap.
    pub fn new() -> (r: Self)
        ensures
            r@ == Seq::<T>::empty(),
            r.wf(),
    {
        MaxHeap { items: Vec::new() }
    }

    /// The number of items.
    pub fn len(&self) -> (r: usize)
        ensures
            r == self@.len(),
    {
        self.items.len()
    }

    /// Adds an item.
    pub fn push(&mut self, x: T)
        requires
            old(self).wf(),
        ensures
            final(self)@.to_multiset() == old(self)@.to_multiset().insert(x),
            final(self).wf(),
    {
        let mut p: usize = 0;
        while p < self.items.len() && !self.items[p].below(&x)
            invariant
                p <= self.items@.len(),
                largest_first(self.items@),
                forall|i: int| 0 <= i < p ==> x.key() <= #[trigger] self.items@[i].key(),
            decreases self.items@.len() - p,
        {
            p = p + 1;
        }
        let ghost before = self.items@;
        self.items.insert(p, x);
        proof {
            vstd::seq_lib::to_multiset_insert(before, p as int, x);
            let s = self.items@;
            assert(s == before.insert(p as int, x));
            assert forall|i: int, j: int|
                #![trigger s[i].key(), s[j].key()]
                0 <= i < j < s.len() implies s[j].key() <= s[i].key() by {
                if p < before.len() {
                    assert(before[p as int].key() < x.key());
                }
                if i < p && j > p {
                    assert(s[i] == before[i] && s[j] == before[j - 1]);
                } else if j > i && i > p {
                    assert(s[i] == before[i - 1] && s[j] == before[j - 1]);
                } else if j < p {
                    assert(s[i] == before[i] && s[j] == before[j]);
                }
            }
        }
    }

    /// Takes out the first item, which has the largest key.
    pub fn pop(&mut self) -> (r: Option<T>)
        requires
            old(self).wf(),
        ensures
            old(self)@.len() == 0 ==> r is None && final(self)@ == old(self)@,
            old(self)@.len() > 0 ==> r == Some(old(self)@[0]) && final(self)@ == old(self)@.drop_first(),
            final(self).wf(),
    {
        if self.items.len() == 0 {
            return None;
        }
        let ghost before = self.items@;
        let x = self.items.remove(0);
        proof {
            assert(self.items@ =~= before.drop_first());
            assert forall|i: int, j: int|
                #![trigger self.items@[i].key(), self.items@[j].key()]
                0 <= i < j < self.items@.len() implies self.items@[j].key()
                <= self.items@[i].key() by {
                assert(self.items@[i] == before[i + 1] && self.items@[j] == before[j + 1]);
            }
        }
        Some(x)
    }

    /// The items, largest first.
    pub fn into_vec(self) -> (r: Vec<T>)
        ensures
            r@ == self@,
    {
        self.items
    }
}

} // verus!
