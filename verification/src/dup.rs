//! Exact duplication of values.
//!
//! Shrinking and tuple composition need to copy a candidate value while
//! keeping every guarantee about it. [`Dup`] is a verified clone: the copy
//! provably denotes the same abstract value (the same `deep_view`) as the
//! original, which `Clone` alone does not promise.

use vstd::prelude::*;
use std::rc::Rc;

verus! {

/// Relies on `Rc::clone`: the new handle denotes the same value.
#[verifier::external_body]
pub fn share_rc<T>(rc: &Rc<T>) -> (r: Rc<T>)
    ensures
        r == *rc,
{
    rc.clone()
}

/// A capability value (a shrinker, a predicate carrier) that can be handed
/// to every node of a lazy tree: duplicating it yields the very same value,
/// so nothing proved about one copy is lost on another.
pub trait Share: Sized {
    /// Returns an identical copy.
    fn share(&self) -> (r: Self)
        ensures
            r == *self,
    ;
}

impl Share for bool {
    fn share(&self) -> (r: Self)
        ensures
            r == *self,
    {
        *self
    }
}

impl Share for char {
    fn share(&self) -> (r: Self)
        ensures
            r == *self,
    {
        *self
    }
}

impl Share for u8 {
    fn share(&self) -> (r: Self)
        ensures
            r == *self,
    {
        *self
    }
}

impl Share for u16 {
    fn share(&self) -> (r: Self)
        ensures
            r == *self,
    {
        *self
    }
}

impl Share for u32 {
    fn share(&self) -> (r: Self)
        ensures
            r == *self,
    {
        *self
    }
}

impl Share for u64 {
    fn share(&self) -> (r: Self)
        ensures
            r == *self,
    {
        *self
    }
}

impl Share for usize {
    fn share(&self) -> (r: Self)
        ensures
            r == *self,
    {
        *self
    }
}

impl Share for i8 {
    fn share(&self) -> (r: Self)
        ensures
            r == *self,
    {
        *self
    }
}

impl Share for i16 {
    fn share(&self) -> (r: Self)
        ensures
            r == *self,
    {
        *self
    }
}

impl Share for i32 {
    fn share(&self) -> (r: Self)
        ensures
            r == *self,
    {
        *self
    }
}

impl Share for i64 {
    fn share(&self) -> (r: Self)
        ensures
            r == *self,
    {
        *self
    }
}

impl Share for isize {
    fn share(&self) -> (r: Self)
        ensures
            r == *self,
    {
        *self
    }
}

impl Share for () {
    fn share(&self) -> (r: Self)
        ensures
            r == *self,
    {
    }
}

impl<A: Share> Share for (A,) {
    fn share(&self) -> (r: Self)
        ensures
            r == *self,
    {
        (self.0.share(),)
    }
}

impl<A: Share, B: Share> Share for (A, B) {
    fn share(&self) -> (r: Self)
        ensures
            r == *self,
    {
        (self.0.share(), self.1.share())
    }
}

impl<A: Share, B: Share, C: Share> Share for (A, B, C) {
    fn share(&self) -> (r: Self)
        ensures
            r == *self,
    {
        (self.0.share(), self.1.share(), self.2.share())
    }
}

/// A value that can be duplicated without changing what it denotes.
pub trait Dup: DeepView + Sized {
    /// Returns a copy denoting the same abstract value.
    fn dup(&self) -> (r: Self)
        ensures
            r.deep_view() == self.deep_view(),
    ;
}

impl Dup for bool {
    fn dup(&self) -> (r: bool)
        ensures
            r.deep_view() == self.deep_view(),
    {
        *self
    }
}

impl Dup for char {
    fn dup(&self) -> (r: char)
        ensures
            r.deep_view() == self.deep_view(),
    {
        *self
    }
}

impl Dup for u8 {
    fn dup(&self) -> (r: u8)
        ensures
            r.deep_view() == self.deep_view(),
    {
        *self
    }
}

impl Dup for u16 {
    fn dup(&self) -> (r: u16)
        ensures
            r.deep_view() == self.deep_view(),
    {
        *self
    }
}

impl Dup for u32 {
    fn dup(&self) -> (r: u32)
        ensures
            r.deep_view() == self.deep_view(),
    {
        *self
    }
}

impl Dup for u64 {
    fn dup(&self) -> (r: u64)
        ensures
            r.deep_view() == self.deep_view(),
    {
        *self
    }
}

impl Dup for usize {
    fn dup(&self) -> (r: usize)
        ensures
            r.deep_view() == self.deep_view(),
    {
        *self
    }
}

impl Dup for i8 {
    fn dup(&self) -> (r: i8)
        ensures
            r.deep_view() == self.deep_view(),
    {
        *self
    }
}

impl Dup for i16 {
    fn dup(&self) -> (r: i16)
        ensures
            r.deep_view() == self.deep_view(),
    {
        *self
    }
}

impl Dup for i32 {
    fn dup(&self) -> (r: i32)
        ensures
            r.deep_view() == self.deep_view(),
    {
        *self
    }
}

impl Dup for i64 {
    fn dup(&self) -> (r: i64)
        ensures
            r.deep_view() == self.deep_view(),
    {
        *self
    }
}

impl Dup for isize {
    fn dup(&self) -> (r: isize)
        ensures
            r.deep_view() == self.deep_view(),
    {
        *self
    }
}

impl<T: Dup> Dup for Vec<T> {
    fn dup(&self) -> (r: Vec<T>)
        ensures
            r.deep_view() == self.deep_view(),
    {
        let mut r: Vec<T> = Vec::new();
        let mut i: usize = 0;
        while i < self.len()
            invariant
                i <= self.len(),
                r@.len() == i,
                forall|j: int| 0 <= j < i ==> r.deep_view()[j] == self.deep_view()[j],
            decreases self.len() - i,
        {
            let ghost prev = r.deep_view();
            r.push(self[i].dup());
            proof {
                assert(forall|j: int| 0 <= j < i ==> r.deep_view()[j] == prev[j]);
            }
            i += 1;
        }
        proof {
            assert(r.deep_view() =~= self.deep_view());
        }
        r
    }
}

impl<T: Dup> Dup for Option<T> {
    fn dup(&self) -> (r: Option<T>)
        ensures
            r.deep_view() == self.deep_view(),
    {
        match self {
            Option::Some(t) => Option::Some(t.dup()),
            Option::None => Option::None,
        }
    }
}

impl Dup for () {
    fn dup(&self) -> (r: ())
        ensures
            r.deep_view() == self.deep_view(),
    {
    }
}

impl<A: Dup> Dup for (A,) {
    fn dup(&self) -> (r: (A,))
        ensures
            r.deep_view() == self.deep_view(),
    {
        (self.0.dup(),)
    }
}

impl<A: Dup, B: Dup> Dup for (A, B) {
    fn dup(&self) -> (r: (A, B))
        ensures
            r.deep_view() == self.deep_view(),
    {
        (self.0.dup(), self.1.dup())
    }
}

impl<A: Dup, B: Dup, C: Dup> Dup for (A, B, C) {
    fn dup(&self) -> (r: (A, B, C))
        ensures
            r.deep_view() == self.deep_view(),
    {
        (self.0.dup(), self.1.dup(), self.2.dup())
    }
}

} // verus!
