use std::collections::hash_map::RandomState;
use std::collections::{BTreeSet, HashSet, VecDeque};
use std::hash::Hash;
use vstd::laws_cmp::obeys_cmp;
use vstd::std_specs::hash::{builds_valid_hashers, obeys_key_model};
use vstd::prelude::*;

use crate::heap::{HeapKey, MaxHeap};
use crate::{FromToken, FromTokens};

verus! {

/// Whether `T` accepts every token of `ts`.
pub open spec fn all_accepted<T: FromToken>(ts: Seq<Seq<char>>) -> bool {
    forall|i: int| 0 <= i < ts.len() ==> T::accepts(#[trigger] ts[i])
}

/// Whether `vs` holds, in order, the values that the tokens of `ts` write.
pub open spec fn written_all<T: FromToken>(ts: Seq<Seq<char>>, vs: Seq<T>) -> bool {
    vs.len() == ts.len() && forall|i: int| 0 <= i < ts.len() ==> T::written_by(ts[i], #[trigger] vs[i])
}

/// Whether `e` is an error that the first token of `ts` that `T` does not
/// accept may give.
pub open spec fn rejects_first<T: FromToken>(ts: Seq<Seq<char>>, e: T::Err) -> bool {
    exists|i: int|
        0 <= i < ts.len() && (forall|j: int| 0 <= j < i ==> T::accepts(#[trigger] ts[j])) && !T::accepts(
            ts[i],
        ) && #[trigger] T::rejects(ts[i], e)
}

/// What decoding each token of `ts` into a sequence gives: the values in token
/// order, or the error of the first token that fails.
pub open spec fn decodes_each<T: FromToken>(ts: Seq<Seq<char>>, r: Result<Seq<T>, T::Err>) -> bool {
    if all_accepted::<T>(ts) {
        match r {
            Ok(vs) => written_all(ts, vs),
            _ => false,
        }
    } else {
        match r {
            Err(e) => rejects_first::<T>(ts, e),
            _ => false,
        }
    }
}

impl<T: FromToken> FromTokens for Vec<T> {
    type Error = T::Err;

    open spec fn decodes(ts: Seq<Seq<char>>, r: Result<Self, Self::Error>) -> bool {
        decodes_each(
            ts,
            match r {
                Ok(v) => Ok(v@),
                Err(e) => Err(e),
            },
        )
    }

    fn from_tokens(tokens: &[String]) -> (r: Result<Self, Self::Error>) {
        let ghost ts = crate::views(tokens@);
        let mut items: Vec<T> = Vec::new();
        let mut i: usize = 0;
        while i < tokens.len()
            invariant
                i <= tokens@.len(),
                ts == crate::views(tokens@),
                items@.len() == i,
                forall|j: int| 0 <= j < i ==> T::accepts(#[trigger] ts[j]),
                forall|j: int| 0 <= j < i ==> T::written_by(ts[j], #[trigger] items@[j]),
            decreases tokens@.len() - i,
        {
            assert(ts[i as int] == tokens@[i as int]@);
            match T::from_token(tokens[i].as_str()) {
                Ok(v) => {
                    items.push(v);
                },
                Err(source) => {
                    assert(!T::accepts(ts[i as int]) && T::rejects(ts[i as int], source));
                    assert(rejects_first::<T>(ts, source));
                    return Err(source);
                },
            }
            i = i + 1;
        }
        Ok(items)
    }
}

impl<T: FromToken> FromTokens for VecDeque<T> {
    type Error = T::Err;

    open spec fn decodes(ts: Seq<Seq<char>>, r: Result<Self, Self::Error>) -> bool {
        decodes_each(
            ts,
            match r {
                Ok(v) => Ok(v@),
                Err(e) => Err(e),
            },
        )
    }

    fn from_tokens(tokens: &[String]) -> (r: Result<Self, Self::Error>) {
        let ghost ts = crate::views(tokens@);
        let mut items: VecDeque<T> = VecDeque::new();
        let mut i: usize = 0;
        while i < tokens.len()
            invariant
                i <= tokens@.len(),
                ts == crate::views(tokens@),
                items@.len() == i,
                forall|j: int| 0 <= j < i ==> T::accepts(#[trigger] ts[j]),
                forall|j: int| 0 <= j < i ==> T::written_by(ts[j], #[trigger] items@[j]),
            decreases tokens@.len() - i,
        {
            assert(ts[i as int] == tokens@[i as int]@);
            match T::from_token(tokens[i].as_str()) {
                Ok(v) => {
                    items.push_back(v);
                },
                Err(source) => {
                    assert(!T::accepts(ts[i as int]) && T::rejects(ts[i as int], source));
                    assert(rejects_first::<T>(ts, source));
                    return Err(source);
                },
            }
            i = i + 1;
        }
        Ok(items)
    }
}

impl<T: FromToken + Ord> FromTokens for BTreeSet<T> {
    type Error = T::Err;

    /// Where `T` orders its values lawfully, the set holds the values that
    /// the tokens write, a repeated value once.
    open spec fn decodes(ts: Seq<Seq<char>>, r: Result<Self, Self::Error>) -> bool {
        if all_accepted::<T>(ts) {
            match r {
                Ok(s) => obeys_cmp::<T>() ==> exists|vs: Seq<T>|
                    written_all(ts, vs) && s@ == vs.to_set(),
                _ => false,
            }
        } else {
            match r {
                Err(e) => rejects_first::<T>(ts, e),
                _ => false,
            }
        }
    }

    fn from_tokens(tokens: &[String]) -> (r: Result<Self, Self::Error>) {
        let ghost ts = crate::views(tokens@);
        let ghost mut vs: Seq<T> = Seq::empty();
        let mut items: BTreeSet<T> = BTreeSet::new();
        let mut i: usize = 0;
        while i < tokens.len()
            invariant
                i <= tokens@.len(),
                ts == crate::views(tokens@),
                vs.len() == i,
                forall|j: int| 0 <= j < i ==> T::accepts(#[trigger] ts[j]),
                forall|j: int| 0 <= j < i ==> T::written_by(ts[j], #[trigger] vs[j]),
                obeys_cmp::<T>() ==> items@ == vs.to_set(),
            decreases tokens@.len() - i,
        {
            assert(ts[i as int] == tokens@[i as int]@);
            match T::from_token(tokens[i].as_str()) {
                Ok(v) => {
                    proof {
                        let w = vs.push(v);
                        assert forall|a: T| #[trigger] w.contains(a) <==> (vs.contains(a) || a == v) by {
                            if vs.contains(a) {
                                let j = choose|j: int| 0 <= j < vs.len() && vs[j] == a;
                                assert(w[j] == a);
                            }
                            if a == v {
                                assert(w[vs.len() as int] == v);
                            }
                            if w.contains(a) {
                                let j = choose|j: int| 0 <= j < w.len() && w[j] == a;
                                if j < vs.len() {
                                    assert(vs[j] == a);
                                }
                            }
                        }
                        assert(w.to_set() =~= vs.to_set().insert(v));
                        vs = vs.push(v);
                    }
                    items.insert(v);
                },
                Err(source) => {
                    assert(!T::accepts(ts[i as int]) && T::rejects(ts[i as int], source));
                    assert(rejects_first::<T>(ts, source));
                    return Err(source);
                },
            }
            i = i + 1;
        }
        assert(written_all(ts, vs));
        Ok(items)
    }
}


impl<T: FromToken + Eq + Hash> FromTokens for HashSet<T> {
    type Error = T::Err;

    /// Where `T` hashes and compares its values lawfully, the set holds the values that
    /// the tokens write, a repeated value once.
    open spec fn decodes(ts: Seq<Seq<char>>, r: Result<Self, Self::Error>) -> bool {
        if all_accepted::<T>(ts) {
            match r {
                Ok(s) => (obeys_key_model::<T>() && builds_valid_hashers::<RandomState>()) ==> exists|
                    vs: Seq<T>,
                | written_all(ts, vs) && s@ == vs.to_set(),
                _ => false,
            }
        } else {
            match r {
                Err(e) => rejects_first::<T>(ts, e),
                _ => false,
            }
        }
    }

    fn from_tokens(tokens: &[String]) -> (r: Result<Self, Self::Error>) {
        let ghost ts = crate::views(tokens@);
        let ghost mut vs: Seq<T> = Seq::empty();
        let mut items: HashSet<T> = HashSet::new();
        let mut i: usize = 0;
        while i < tokens.len()
            invariant
                i <= tokens@.len(),
                ts == crate::views(tokens@),
                vs.len() == i,
                forall|j: int| 0 <= j < i ==> T::accepts(#[trigger] ts[j]),
                forall|j: int| 0 <= j < i ==> T::written_by(ts[j], #[trigger] vs[j]),
                (obeys_key_model::<T>() && builds_valid_hashers::<RandomState>()) ==> items@
                    == vs.to_set(),
            decreases tokens@.len() - i,
        {
            assert(ts[i as int] == tokens@[i as int]@);
            match T::from_token(tokens[i].as_str()) {
                Ok(v) => {
                    proof {
                        let w = vs.push(v);
                        assert forall|a: T| #[trigger] w.contains(a) <==> (vs.contains(a) || a == v) by {
                            if vs.contains(a) {
                                let j = choose|j: int| 0 <= j < vs.len() && vs[j] == a;
                                assert(w[j] == a);
                            }
                            if a == v {
                                assert(w[vs.len() as int] == v);
                            }
                            if w.contains(a) {
                                let j = choose|j: int| 0 <= j < w.len() && w[j] == a;
                                if j < vs.len() {
                                    assert(vs[j] == a);
                                }
                            }
                        }
                        assert(w.to_set() =~= vs.to_set().insert(v));
                        vs = vs.push(v);
                    }
                    items.insert(v);
                },
                Err(source) => {
                    assert(!T::accepts(ts[i as int]) && T::rejects(ts[i as int], source));
                    assert(rejects_first::<T>(ts, source));
                    return Err(source);
                },
            }
            i = i + 1;
        }
        assert(written_all(ts, vs));
        Ok(items)
    }
}

impl<T: FromToken + HeapKey> FromTokens for MaxHeap<T> {
    type Error = T::Err;

    /// The heap holds the values that the tokens write, each as often as it is
    /// written, largest first.
    open spec fn decodes(ts: Seq<Seq<char>>, r: Result<Self, Self::Error>) -> bool {
        if all_accepted::<T>(ts) {
            match r {
                Ok(h) => h.wf() && exists|vs: Seq<T>|
                    written_all(ts, vs) && h@.to_multiset() == vs.to_multiset(),
                _ => false,
            }
        } else {
            match r {
                Err(e) => rejects_first::<T>(ts, e),
                _ => false,
            }
        }
    }

    fn from_tokens(tokens: &[String]) -> (r: Result<Self, Self::Error>) {
        let ghost ts = crate::views(tokens@);
        let ghost mut vs: Seq<T> = Seq::empty();
        let mut items: MaxHeap<T> = MaxHeap::new();
        let mut i: usize = 0;
        while i < tokens.len()
            invariant
                i <= tokens@.len(),
                ts == crate::views(tokens@),
                vs.len() == i,
                forall|j: int| 0 <= j < i ==> T::accepts(#[trigger] ts[j]),
                forall|j: int| 0 <= j < i ==> T::written_by(ts[j], #[trigger] vs[j]),
                items.wf(),
                items@.to_multiset() == vs.to_multiset(),
            decreases tokens@.len() - i,
        {
            assert(ts[i as int] == tokens@[i as int]@);
            match T::from_token(tokens[i].as_str()) {
                Ok(v) => {
                    proof {
                        vstd::seq_lib::to_multiset_build(vs, v);
                        vs = vs.push(v);
                    }
                    items.push(v);
                },
                Err(source) => {
                    assert(!T::accepts(ts[i as int]) && T::rejects(ts[i as int], source));
                    assert(rejects_first::<T>(ts, source));
                    return Err(source);
                },
            }
            i = i + 1;
        }
        assert(written_all(ts, vs));
        Ok(items)
    }
}

} // verus!
