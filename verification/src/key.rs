//! Key equality for registry lookups.
//!
//! A registry is parameterised by a caller-chosen key type. Lookups compare
//! keys with [`Key::key_eq`], whose result is pinned to the mathematical
//! relation [`Key::keq`], so that every registry contract can speak of "the
//! first record whose key equals the one given".

use vstd::prelude::*;
use vstd::string::StrSliceExecFns;

verus! {

/// A type usable as a registry key: it carries a spec-level equality
/// relation and an executable comparison that decides it.
pub trait Key: Sized {
    /// The equality relation the registry resolves keys by.
    spec fn keq(self, other: Self) -> bool;

    /// Key equality relates every key to itself, so a key that was just
    /// registered can always be found again.
    proof fn keq_reflexive(x: Self)
        ensures
            x.keq(x),
    ;

    /// Decide [`Key::keq`].
    fn key_eq(&self, other: &Self) -> (r: bool)
        ensures
            r == self.keq(*other),
    ;
}

impl Key for u64 {
    open spec fn keq(self, other: Self) -> bool {
        self == other
    }

    proof fn keq_reflexive(x: Self) {
    }

    fn key_eq(&self, other: &Self) -> (r: bool) {
        *self == *other
    }
}

impl Key for usize {
    open spec fn keq(self, other: Self) -> bool {
        self == other
    }

    proof fn keq_reflexive(x: Self) {
    }

    fn key_eq(&self, other: &Self) -> (r: bool) {
        *self == *other
    }
}

impl Key for i32 {
    open spec fn keq(self, other: Self) -> bool {
        self == other
    }

    proof fn keq_reflexive(x: Self) {
    }

    fn key_eq(&self, other: &Self) -> (r: bool) {
        *self == *other
    }
}

impl Key for () {
    open spec fn keq(self, other: Self) -> bool {
        true
    }

    proof fn keq_reflexive(x: Self) {
    }

    fn key_eq(&self, other: &Self) -> (r: bool) {
        true
    }
}

impl Key for String {
    open spec fn keq(self, other: Self) -> bool {
        self@ == other@
    }

    proof fn keq_reflexive(x: Self) {
    }

    fn key_eq(&self, other: &Self) -> (r: bool) {
        self.eq(other)
    }
}

impl<'s> Key for &'s str {
    open spec fn keq(self, other: Self) -> bool {
        self@ == other@
    }

    proof fn keq_reflexive(x: Self) {
    }

    fn key_eq(&self, other: &Self) -> (r: bool) {
        str_chars_eq(*self, *other)
    }
}

/// Character-by-character string equality, decided against the view.
fn str_chars_eq(a: &str, b: &str) -> (r: bool)
    ensures
        r == (a@ == b@),
{
    let n = a.unicode_len();
    if n != b.unicode_len() {
        return false;
    }
    let mut i: usize = 0;
    while i < n
        invariant
            n == a@.len(),
            n == b@.len(),
            i <= n,
            forall|j: int| 0 <= j < i ==> a@[j] == b@[j],
        decreases n - i,
    {
        if a.get_char(i) != b.get_char(i) {
            return false;
        }
        i = i + 1;
    }
    proof {
        assert(a@ =~= b@);
    }
    true
}

} // verus!
