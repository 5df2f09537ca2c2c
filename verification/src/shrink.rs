//! The shrink engine: deterministic proposal of smaller candidate values.
//!
//! A [`Shrink`] capability maps a concrete value to a sequence of candidate
//! replacements, each considered smaller or simpler. Shrinking never consults
//! randomness: the whole candidate sequence is a mathematical function of the
//! value, written down by the spec function [`Shrink::cands`]. The sequence
//! is delivered lazily through a [`Candidates`] cursor, so that a caller who
//! stops after the first proposal pays only for the first proposal.

use vstd::prelude::*;
use core::marker::PhantomData;
use vstd::math::abs;
use crate::dup::{Dup, Share};

verus! {

/// A lazy cursor over a candidate sequence. `remaining` is the abstract
/// sequence of values still to come, each given by its `deep_view`.
pub trait Candidates: Sized {
    type Item: DeepView;

    /// The cursor's internal consistency; established by whoever builds the
    /// cursor and maintained by `next`.
    spec fn wf(&self) -> bool;

    /// Views of the values still to be produced, in order.
    spec fn remaining(&self) -> Seq<<Self::Item as DeepView>::V>;

    /// Produces the next candidate, or nothing once the sequence is spent.
    fn next(&mut self) -> (r: Option<Self::Item>)
        requires
            old(self).wf(),
        ensures
            final(self).wf(),
            match r {
                Option::Some(v) => old(self).remaining().len() > 0 && v.deep_view() == old(
                    self,
                ).remaining()[0] && final(self).remaining() == old(self).remaining().drop_first(),
                Option::None => old(self).remaining().len() == 0 && final(self).remaining() == old(
                    self,
                ).remaining(),
            },
    ;
}

/// The capability of proposing smaller candidate values for a concrete
/// value, deterministically.
pub trait Shrink {
    type Item: DeepView;

    type Iter: Candidates<Item = Self::Item>;

    /// The full candidate sequence proposed for a value, by view.
    spec fn cands(&self, v: <Self::Item as DeepView>::V) -> Seq<<Self::Item as DeepView>::V>;

    /// How far from minimal a value still is. Every candidate is strictly
    /// closer to minimal, which is what makes the shrink search terminate.
    spec fn measure(&self, v: <Self::Item as DeepView>::V) -> nat;

    /// Every candidate strictly decreases the measure.
    proof fn cands_decrease(&self, v: <Self::Item as DeepView>::V)
        ensures
            forall|i: int|
                0 <= i < self.cands(v).len() ==> self.measure(#[trigger] self.cands(v)[i])
                    < self.measure(v),
    ;

    /// Starts a cursor over the candidates for `value`.
    fn shrink(&self, value: &Self::Item) -> (it: Self::Iter)
        ensures
            it.wf(),
            it.remaining() == self.cands(value.deep_view()),
    ;
}

impl<S: Shrink> Shrink for &S {
    type Item = S::Item;

    type Iter = S::Iter;

    open spec fn cands(&self, v: <S::Item as DeepView>::V) -> Seq<<S::Item as DeepView>::V> {
        (**self).cands(v)
    }

    open spec fn measure(&self, v: <S::Item as DeepView>::V) -> nat {
        (**self).measure(v)
    }

    proof fn cands_decrease(&self, v: <S::Item as DeepView>::V) {
        (**self).cands_decrease(v);
    }

    fn shrink(&self, value: &S::Item) -> (it: S::Iter)
        ensures
            it.wf(),
            it.remaining() == self.cands(value.deep_view()),
    {
        (**self).shrink(value)
    }
}

/// A cursor holding at most one value.
pub struct UpToOne<T> {
    pub item: Option<T>,
}

impl<T: DeepView> Candidates for UpToOne<T> {
    type Item = T;

    open spec fn wf(&self) -> bool {
        true
    }

    open spec fn remaining(&self) -> Seq<<T as DeepView>::V> {
        match self.item {
            Option::Some(v) => seq![v.deep_view()],
            Option::None => Seq::empty(),
        }
    }

    fn next(&mut self) -> (r: Option<T>)
        ensures
            final(self).wf(),
            match r {
                Option::Some(v) => old(self).remaining().len() > 0 && v.deep_view() == old(
                    self,
                ).remaining()[0] && final(self).remaining() == old(self).remaining().drop_first(),
                Option::None => old(self).remaining().len() == 0 && final(self).remaining() == old(
                    self,
                ).remaining(),
            },
    {
        self.item.take()
    }
}

/// A shrinker proposing nothing: every value is already minimal.
pub struct Empty<T>(PhantomData<T>);

impl<T> Clone for Empty<T> {
    fn clone(&self) -> (r: Self)
        ensures
            r == *self,
    {
        Empty(PhantomData)
    }
}

impl<T> Copy for Empty<T> {

}

impl<T> Share for Empty<T> {
    fn share(&self) -> (r: Self)
        ensures
            r == *self,
    {
        Empty(PhantomData)
    }
}

impl<T> Empty<T> {
    pub fn empty() -> Self {
        Empty(PhantomData)
    }
}

impl<T: DeepView> Shrink for Empty<T> {
    type Item = T;

    type Iter = UpToOne<T>;

    open spec fn cands(&self, v: <T as DeepView>::V) -> Seq<<T as DeepView>::V> {
        Seq::empty()
    }

    open spec fn measure(&self, v: <T as DeepView>::V) -> nat {
        0
    }

    proof fn cands_decrease(&self, v: <T as DeepView>::V) {
    }

    fn shrink(&self, value: &T) -> (it: UpToOne<T>)
        ensures
            it.wf(),
            it.remaining() == self.cands(value.deep_view()),
    {
        UpToOne { item: Option::None }
    }
}

/// The default shrinker for `bool`: `true` shrinks to `false`, and `false`
/// is minimal.
pub struct DefaultShrinker<T>(PhantomData<T>);

impl<T> Clone for DefaultShrinker<T> {
    fn clone(&self) -> (r: Self)
        ensures
            r == *self,
    {
        DefaultShrinker(PhantomData)
    }
}

impl<T> Copy for DefaultShrinker<T> {

}

impl<T> Share for DefaultShrinker<T> {
    fn share(&self) -> (r: Self)
        ensures
            r == *self,
    {
        DefaultShrinker(PhantomData)
    }
}

impl<T> DefaultShrinker<T> {
    pub fn new() -> Self {
        DefaultShrinker(PhantomData)
    }
}

impl Shrink for DefaultShrinker<bool> {
    type Item = bool;

    type Iter = UpToOne<bool>;

    open spec fn cands(&self, v: bool) -> Seq<bool> {
        if v {
            seq![false]
        } else {
            Seq::empty()
        }
    }

    open spec fn measure(&self, v: bool) -> nat {
        if v {
            1
        } else {
            0
        }
    }

    proof fn cands_decrease(&self, v: bool) {
    }

    fn shrink(&self, value: &bool) -> (it: UpToOne<bool>)
        ensures
            it.wf(),
            it.remaining() == self.cands(value.deep_view()),
    {
        if *value {
            UpToOne { item: Option::Some(false) }
        } else {
            UpToOne { item: Option::None }
        }
    }
}

/// Halving that rounds toward zero, as integer division does at runtime.
pub open spec fn half_toward_zero(v: int) -> int {
    if v >= 0 {
        v / 2
    } else {
        -((-v) / 2)
    }
}

/// The unit-step walk from `w` toward zero, endpoints included:
/// `w, w-1, ..., 1` for positive `w` and `w, w+1, ..., -1` for negative `w`.
pub open spec fn walk_toward_zero(w: int) -> Seq<int> {
    if w >= 0 {
        Seq::new(w as nat, |i: int| w - i)
    } else {
        Seq::new((-w) as nat, |i: int| w + i)
    }
}

/// The signed integer candidate sequence for a value `v` of a type whose
/// largest value is `max`: zero first, then the magnitude of a negative
/// value when the type can hold it, then half, then the unit-step walk
/// starting next to `v`. Zero itself has no candidates.
pub open spec fn signed_cands(v: int, max: int) -> Seq<int> {
    if v == 0 {
        Seq::empty()
    } else {
        seq![0] + (if v < 0 && -v <= max {
            seq![-v]
        } else {
            Seq::empty()
        }) + (if half_toward_zero(v) != 0 {
            seq![half_toward_zero(v)]
        } else {
            Seq::empty()
        }) + (if v > 0 {
            walk_toward_zero(v - 1)
        } else {
            walk_toward_zero(v + 1)
        })
    }
}

/// Half of `v`, rounded toward zero, without overflow at the type's
/// minimum.
fn half_i64(v: i64) -> (r: i64)
    ensures
        r as int == half_toward_zero(v as int),
{
    if v >= 0 {
        ((v as u64) / 2) as i64
    } else {
        let m: u64 = ((-(v + 1)) as u64) + 1;
        let h: u64 = m / 2;
        -(h as i64)
    }
}

/// The running state of a signed candidate stream: which of the cheap
/// proposals is still pending, and where the unit-step walk stands.
pub struct SignedStream {
    pub v: i64,
    pub max: i64,
    pub stage: u8,
    pub walk: i64,
}

impl SignedStream {
    /// Whether the magnitude proposal applies: `v` is negative and its
    /// magnitude fits the target type.
    pub open spec fn has_mag(&self) -> bool {
        self.v < 0 && -(self.v as int) <= self.max as int
    }

    /// Whether the halving proposal applies: half of `v` is not zero.
    pub open spec fn has_half(&self) -> bool {
        half_toward_zero(self.v as int) != 0
    }

    pub open spec fn wf(&self) -> bool {
        &&& 0 < self.max
        &&& self.stage <= 3
        &&& self.stage <= 2 ==> self.v != 0
        &&& self.stage == 1 ==> self.has_mag()
        &&& self.stage == 2 ==> self.has_half()
        &&& if self.v > 0 {
            0 <= self.walk as int <= self.v as int - 1
        } else if self.v < 0 {
            self.v as int + 1 <= self.walk as int <= 0
        } else {
            self.walk == 0
        }
        &&& self.stage < 3 ==> self.walk as int == (if self.v > 0 {
            self.v as int - 1
        } else {
            self.v as int + 1
        })
    }

    /// The candidate views still to come, as integers.
    pub open spec fn remaining_int(&self) -> Seq<int> {
        (if self.stage == 0 {
            seq![0int]
        } else {
            Seq::empty()
        }) + (if self.stage <= 1 && self.has_mag() {
            seq![-(self.v as int)]
        } else {
            Seq::empty()
        }) + (if self.stage <= 2 && self.has_half() {
            seq![half_toward_zero(self.v as int)]
        } else {
            Seq::empty()
        }) + walk_toward_zero(self.walk as int)
    }

    /// Starts the stream for `v` in a type bounded by `max`.
    pub fn start(v: i64, max: i64) -> (r: SignedStream)
        requires
            0 < max,
        ensures
            r.wf(),
            r.v == v,
            r.max == max,
            r.remaining_int() == signed_cands(v as int, max as int),
    {
        if v == 0 {
            SignedStream { v, max, stage: 3, walk: 0 }
        } else if v > 0 {
            SignedStream { v, max, stage: 0, walk: v - 1 }
        } else {
            SignedStream { v, max, stage: 0, walk: v + 1 }
        }
    }

    /// Produces the next candidate of the stream.
    pub fn next_i64(&mut self) -> (r: Option<i64>)
        requires
            old(self).wf(),
        ensures
            final(self).wf(),
            final(self).v == old(self).v,
            final(self).max == old(self).max,
            match r {
                Option::Some(c) => old(self).remaining_int().len() > 0 && c as int == old(
                    self,
                ).remaining_int()[0] && final(self).remaining_int() == old(
                    self,
                ).remaining_int().drop_first(),
                Option::None => old(self).remaining_int().len() == 0 && final(self).remaining_int()
                    == old(self).remaining_int(),
            },
    {
        if self.stage == 0 {
            let has_mag = self.v < 0 && self.max >= 1 && self.v >= -self.max;
            let h = half_i64(self.v);
            self.stage = if has_mag {
                1
            } else if h != 0 {
                2
            } else {
                3
            };
            proof {
                assert(final(self).remaining_int() =~= old(self).remaining_int().drop_first());
            }
            Option::Some(0)
        } else if self.stage == 1 {
            let c = -self.v;
            let h = half_i64(self.v);
            self.stage = if h != 0 {
                2
            } else {
                3
            };
            proof {
                assert(final(self).remaining_int() =~= old(self).remaining_int().drop_first());
            }
            Option::Some(c)
        } else if self.stage == 2 {
            let c = half_i64(self.v);
            self.stage = 3;
            proof {
                assert(final(self).remaining_int() =~= old(self).remaining_int().drop_first());
            }
            Option::Some(c)
        } else {
            if self.walk == 0 {
                Option::None
            } else if self.walk > 0 {
                let c = self.walk;
                self.walk = self.walk - 1;
                proof {
                    assert(final(self).remaining_int() =~= old(self).remaining_int().drop_first());
                }
                Option::Some(c)
            } else {
                let c = self.walk;
                self.walk = self.walk + 1;
                proof {
                    assert(final(self).remaining_int() =~= old(self).remaining_int().drop_first());
                }
                Option::Some(c)
            }
        }
    }
}


/// Every candidate the stream will still produce stays inside the type's
/// range whenever the shrunk value does.
pub proof fn lemma_signed_stream_bounds(s: SignedStream)
    requires
        s.wf(),
        -(s.max as int) - 1 <= s.v as int <= s.max as int,
    ensures
        forall|i: int|
            0 <= i < s.remaining_int().len() ==> -(s.max as int) - 1 <= #[trigger] s.remaining_int()[i]
                <= s.max as int,
{
}

/// A cursor over the integer shrink candidates of a value of `X`.
pub struct IntCandidates<X> {
    pub core: SignedStream,
    pub _marker: PhantomData<X>,
}

/// Shrinks signed integers: zero first, then the magnitude of a negative
/// value, then half, then unit steps toward zero.
pub struct IntegerShrinker<T>(PhantomData<T>);

impl<T> Clone for IntegerShrinker<T> {
    fn clone(&self) -> (r: Self)
        ensures
            r == *self,
    {
        IntegerShrinker(PhantomData)
    }
}

impl<T> Copy for IntegerShrinker<T> {

}

impl<T> Share for IntegerShrinker<T> {
    fn share(&self) -> (r: Self)
        ensures
            r == *self,
    {
        IntegerShrinker(PhantomData)
    }
}

impl<T> IntegerShrinker<T> {
    pub fn new() -> Self {
        IntegerShrinker(PhantomData)
    }
}

impl Candidates for IntCandidates<i8> {
    type Item = i8;

    open spec fn wf(&self) -> bool {
        &&& self.core.wf()
        &&& self.core.max == i8::MAX as i64
        &&& i8::MIN as int <= self.core.v as int <= i8::MAX as int
    }

    open spec fn remaining(&self) -> Seq<i8> {
        self.core.remaining_int().map_values(|c: int| c as i8)
    }

    fn next(&mut self) -> (r: Option<i8>)
        ensures
            final(self).wf(),
            match r {
                Option::Some(v) => old(self).remaining().len() > 0 && v.deep_view() == old(
                    self,
                ).remaining()[0] && final(self).remaining() == old(self).remaining().drop_first(),
                Option::None => old(self).remaining().len() == 0 && final(self).remaining() == old(
                    self,
                ).remaining(),
            },
    {
        proof {
            lemma_signed_stream_bounds(self.core);
        }
        match self.core.next_i64() {
            Option::Some(c) => {
                proof {
                    assert(final(self).remaining() =~= old(self).remaining().drop_first());
                }
                Option::Some(c as i8)
            },
            Option::None => Option::None,
        }
    }
}

impl Shrink for IntegerShrinker<i8> {
    type Item = i8;

    type Iter = IntCandidates<i8>;

    open spec fn cands(&self, v: i8) -> Seq<i8> {
        signed_cands(v as int, i8::MAX as int).map_values(|c: int| c as i8)
    }

    open spec fn measure(&self, v: i8) -> nat {
        signed_measure(v as int) as nat
    }

    proof fn cands_decrease(&self, v: i8) {
        lemma_signed_measure_decreases(v as int, i8::MAX as int);
        assert forall|i: int| 0 <= i < self.cands(v).len() implies self.measure(
            #[trigger] self.cands(v)[i],
        ) < self.measure(v) by {
            let c = signed_cands(v as int, i8::MAX as int)[i];
            assert(self.cands(v)[i] == c as i8);
            assert(-(i8::MAX as int) <= c <= i8::MAX as int);
            assert((c as i8) as int == c);
        }
    }

    fn shrink(&self, value: &i8) -> (it: IntCandidates<i8>)
        ensures
            it.wf(),
            it.remaining() == self.cands(value.deep_view()),
    {
        let it = IntCandidates {
            core: SignedStream::start(*value as i64, i8::MAX as i64),
            _marker: PhantomData,
        };
        proof {
            assert(it.remaining() =~= self.cands(value.deep_view()));
        }
        it
    }
}

impl Candidates for IntCandidates<i16> {
    type Item = i16;

    open spec fn wf(&self) -> bool {
        &&& self.core.wf()
        &&& self.core.max == i16::MAX as i64
        &&& i16::MIN as int <= self.core.v as int <= i16::MAX as int
    }

    open spec fn remaining(&self) -> Seq<i16> {
        self.core.remaining_int().map_values(|c: int| c as i16)
    }

    fn next(&mut self) -> (r: Option<i16>)
        ensures
            final(self).wf(),
            match r {
                Option::Some(v) => old(self).remaining().len() > 0 && v.deep_view() == old(
                    self,
                ).remaining()[0] && final(self).remaining() == old(self).remaining().drop_first(),
                Option::None => old(self).remaining().len() == 0 && final(self).remaining() == old(
                    self,
                ).remaining(),
            },
    {
        proof {
            lemma_signed_stream_bounds(self.core);
        }
        match self.core.next_i64() {
            Option::Some(c) => {
                proof {
                    assert(final(self).remaining() =~= old(self).remaining().drop_first());
                }
                Option::Some(c as i16)
            },
            Option::None => Option::None,
        }
    }
}

impl Shrink for IntegerShrinker<i16> {
    type Item = i16;

    type Iter = IntCandidates<i16>;

    open spec fn cands(&self, v: i16) -> Seq<i16> {
        signed_cands(v as int, i16::MAX as int).map_values(|c: int| c as i16)
    }

    open spec fn measure(&self, v: i16) -> nat {
        signed_measure(v as int) as nat
    }

    proof fn cands_decrease(&self, v: i16) {
        lemma_signed_measure_decreases(v as int, i16::MAX as int);
        assert forall|i: int| 0 <= i < self.cands(v).len() implies self.measure(
            #[trigger] self.cands(v)[i],
        ) < self.measure(v) by {
            let c = signed_cands(v as int, i16::MAX as int)[i];
            assert(self.cands(v)[i] == c as i16);
            assert(-(i16::MAX as int) <= c <= i16::MAX as int);
            assert((c as i16) as int == c);
        }
    }

    fn shrink(&self, value: &i16) -> (it: IntCandidates<i16>)
        ensures
            it.wf(),
            it.remaining() == self.cands(value.deep_view()),
    {
        let it = IntCandidates {
            core: SignedStream::start(*value as i64, i16::MAX as i64),
            _marker: PhantomData,
        };
        proof {
            assert(it.remaining() =~= self.cands(value.deep_view()));
        }
        it
    }
}

impl Candidates for IntCandidates<i32> {
    type Item = i32;

    open spec fn wf(&self) -> bool {
        &&& self.core.wf()
        &&& self.core.max == i32::MAX as i64
        &&& i32::MIN as int <= self.core.v as int <= i32::MAX as int
    }

    open spec fn remaining(&self) -> Seq<i32> {
        self.core.remaining_int().map_values(|c: int| c as i32)
    }

    fn next(&mut self) -> (r: Option<i32>)
        ensures
            final(self).wf(),
            match r {
                Option::Some(v) => old(self).remaining().len() > 0 && v.deep_view() == old(
                    self,
                ).remaining()[0] && final(self).remaining() == old(self).remaining().drop_first(),
                Option::None => old(self).remaining().len() == 0 && final(self).remaining() == old(
                    self,
                ).remaining(),
            },
    {
        proof {
            lemma_signed_stream_bounds(self.core);
        }
        match self.core.next_i64() {
            Option::Some(c) => {
                proof {
                    assert(final(self).remaining() =~= old(self).remaining().drop_first());
                }
                Option::Some(c as i32)
            },
            Option::None => Option::None,
        }
    }
}

impl Shrink for IntegerShrinker<i32> {
    type Item = i32;

    type Iter = IntCandidates<i32>;

    open spec fn cands(&self, v: i32) -> Seq<i32> {
        signed_cands(v as int, i32::MAX as int).map_values(|c: int| c as i32)
    }

    open spec fn measure(&self, v: i32) -> nat {
        signed_measure(v as int) as nat
    }

    proof fn cands_decrease(&self, v: i32) {
        lemma_signed_measure_decreases(v as int, i32::MAX as int);
        assert forall|i: int| 0 <= i < self.cands(v).len() implies self.measure(
            #[trigger] self.cands(v)[i],
        ) < self.measure(v) by {
            let c = signed_cands(v as int, i32::MAX as int)[i];
            assert(self.cands(v)[i] == c as i32);
            assert(-(i32::MAX as int) <= c <= i32::MAX as int);
            assert((c as i32) as int == c);
        }
    }

    fn shrink(&self, value: &i32) -> (it: IntCandidates<i32>)
        ensures
            it.wf(),
            it.remaining() == self.cands(value.deep_view()),
    {
        let it = IntCandidates {
            core: SignedStream::start(*value as i64, i32::MAX as i64),
            _marker: PhantomData,
        };
        proof {
            assert(it.remaining() =~= self.cands(value.deep_view()));
        }
        it
    }
}

impl Candidates for IntCandidates<i64> {
    type Item = i64;

    open spec fn wf(&self) -> bool {
        &&& self.core.wf()
        &&& self.core.max == i64::MAX as i64
        &&& i64::MIN as int <= self.core.v as int <= i64::MAX as int
    }

    open spec fn remaining(&self) -> Seq<i64> {
        self.core.remaining_int().map_values(|c: int| c as i64)
    }

    fn next(&mut self) -> (r: Option<i64>)
        ensures
            final(self).wf(),
            match r {
                Option::Some(v) => old(self).remaining().len() > 0 && v.deep_view() == old(
                    self,
                ).remaining()[0] && final(self).remaining() == old(self).remaining().drop_first(),
                Option::None => old(self).remaining().len() == 0 && final(self).remaining() == old(
                    self,
                ).remaining(),
            },
    {
        proof {
            lemma_signed_stream_bounds(self.core);
        }
        match self.core.next_i64() {
            Option::Some(c) => {
                proof {
                    assert(final(self).remaining() =~= old(self).remaining().drop_first());
                }
                Option::Some(c as i64)
            },
            Option::None => Option::None,
        }
    }
}

impl Shrink for IntegerShrinker<i64> {
    type Item = i64;

    type Iter = IntCandidates<i64>;

    open spec fn cands(&self, v: i64) -> Seq<i64> {
        signed_cands(v as int, i64::MAX as int).map_values(|c: int| c as i64)
    }

    open spec fn measure(&self, v: i64) -> nat {
        signed_measure(v as int) as nat
    }

    proof fn cands_decrease(&self, v: i64) {
        lemma_signed_measure_decreases(v as int, i64::MAX as int);
        assert forall|i: int| 0 <= i < self.cands(v).len() implies self.measure(
            #[trigger] self.cands(v)[i],
        ) < self.measure(v) by {
            let c = signed_cands(v as int, i64::MAX as int)[i];
            assert(self.cands(v)[i] == c as i64);
            assert(-(i64::MAX as int) <= c <= i64::MAX as int);
            assert((c as i64) as int == c);
        }
    }

    fn shrink(&self, value: &i64) -> (it: IntCandidates<i64>)
        ensures
            it.wf(),
            it.remaining() == self.cands(value.deep_view()),
    {
        let it = IntCandidates {
            core: SignedStream::start(*value as i64, i64::MAX as i64),
            _marker: PhantomData,
        };
        proof {
            assert(it.remaining() =~= self.cands(value.deep_view()));
        }
        it
    }
}

impl Candidates for IntCandidates<isize> {
    type Item = isize;

    open spec fn wf(&self) -> bool {
        &&& self.core.wf()
        &&& self.core.max == isize::MAX as i64
        &&& isize::MIN as int <= self.core.v as int <= isize::MAX as int
    }

    open spec fn remaining(&self) -> Seq<isize> {
        self.core.remaining_int().map_values(|c: int| c as isize)
    }

    fn next(&mut self) -> (r: Option<isize>)
        ensures
            final(self).wf(),
            match r {
                Option::Some(v) => old(self).remaining().len() > 0 && v.deep_view() == old(
                    self,
                ).remaining()[0] && final(self).remaining() == old(self).remaining().drop_first(),
                Option::None => old(self).remaining().len() == 0 && final(self).remaining() == old(
                    self,
                ).remaining(),
            },
    {
        proof {
            lemma_signed_stream_bounds(self.core);
        }
        match self.core.next_i64() {
            Option::Some(c) => {
                proof {
                    assert(final(self).remaining() =~= old(self).remaining().drop_first());
                }
                Option::Some(c as isize)
            },
            Option::None => Option::None,
        }
    }
}

impl Shrink for IntegerShrinker<isize> {
    type Item = isize;

    type Iter = IntCandidates<isize>;

    open spec fn cands(&self, v: isize) -> Seq<isize> {
        signed_cands(v as int, isize::MAX as int).map_values(|c: int| c as isize)
    }

    open spec fn measure(&self, v: isize) -> nat {
        signed_measure(v as int) as nat
    }

    proof fn cands_decrease(&self, v: isize) {
        lemma_signed_measure_decreases(v as int, isize::MAX as int);
        assert forall|i: int| 0 <= i < self.cands(v).len() implies self.measure(
            #[trigger] self.cands(v)[i],
        ) < self.measure(v) by {
            let c = signed_cands(v as int, isize::MAX as int)[i];
            assert(self.cands(v)[i] == c as isize);
            assert(-(isize::MAX as int) <= c <= isize::MAX as int);
            assert((c as isize) as int == c);
        }
    }

    fn shrink(&self, value: &isize) -> (it: IntCandidates<isize>)
        ensures
            it.wf(),
            it.remaining() == self.cands(value.deep_view()),
    {
        let it = IntCandidates {
            core: SignedStream::start(*value as i64, isize::MAX as i64),
            _marker: PhantomData,
        };
        proof {
            assert(it.remaining() =~= self.cands(value.deep_view()));
        }
        it
    }
}


/// The non-negative candidate sequence for a value `v`: zero first, then
/// half, then the unit-step walk starting next to `v`. Zero itself has no
/// candidates.
pub open spec fn unsigned_cands(v: int) -> Seq<int> {
    if v == 0 {
        Seq::empty()
    } else {
        seq![0] + (if v / 2 != 0 {
            seq![v / 2]
        } else {
            Seq::empty()
        }) + walk_toward_zero(v - 1)
    }
}

/// The running state of a non-negative candidate stream.
pub struct UnsignedStream {
    pub v: u64,
    pub stage: u8,
    pub walk: u64,
}

impl UnsignedStream {
    /// Whether the halving proposal applies: half of `v` is not zero.
    pub open spec fn has_half(&self) -> bool {
        self.v as int / 2 != 0
    }

    pub open spec fn wf(&self) -> bool {
        &&& self.stage <= 3
        &&& self.stage <= 2 ==> self.v != 0
        &&& self.stage == 2 ==> self.has_half()
        &&& self.stage != 1
        &&& if self.v > 0 {
            0 <= self.walk as int <= self.v as int - 1
        } else {
            self.walk == 0
        }
        &&& self.stage < 3 ==> self.walk as int == self.v as int - 1
    }

    /// The candidate views still to come, as integers.
    pub open spec fn remaining_int(&self) -> Seq<int> {
        (if self.stage == 0 {
            seq![0int]
        } else {
            Seq::empty()
        }) + (if self.stage <= 2 && self.has_half() {
            seq![self.v as int / 2]
        } else {
            Seq::empty()
        }) + walk_toward_zero(self.walk as int)
    }

    /// Starts the stream for `v`.
    pub fn start(v: u64) -> (r: UnsignedStream)
        ensures
            r.wf(),
            r.v == v,
            r.remaining_int() == unsigned_cands(v as int),
    {
        if v == 0 {
            UnsignedStream { v, stage: 3, walk: 0 }
        } else {
            UnsignedStream { v, stage: 0, walk: v - 1 }
        }
    }

    /// Produces the next candidate of the stream.
    pub fn next_u64(&mut self) -> (r: Option<u64>)
        requires
            old(self).wf(),
        ensures
            final(self).wf(),
            final(self).v == old(self).v,
            match r {
                Option::Some(c) => old(self).remaining_int().len() > 0 && c as int == old(
                    self,
                ).remaining_int()[0] && final(self).remaining_int() == old(
                    self,
                ).remaining_int().drop_first(),
                Option::None => old(self).remaining_int().len() == 0 && final(self).remaining_int()
                    == old(self).remaining_int(),
            },
    {
        if self.stage == 0 {
            let h = self.v / 2;
            self.stage = if h != 0 {
                2
            } else {
                3
            };
            proof {
                assert(final(self).remaining_int() =~= old(self).remaining_int().drop_first());
            }
            Option::Some(0)
        } else if self.stage == 2 {
            let c = self.v / 2;
            self.stage = 3;
            proof {
                assert(final(self).remaining_int() =~= old(self).remaining_int().drop_first());
            }
            Option::Some(c)
        } else {
            if self.walk == 0 {
                Option::None
            } else {
                let c = self.walk;
                self.walk = self.walk - 1;
                proof {
                    assert(final(self).remaining_int() =~= old(self).remaining_int().drop_first());
                }
                Option::Some(c)
            }
        }
    }
}

/// Every candidate the stream will still produce stays below the shrunk
/// value.
pub proof fn lemma_unsigned_stream_bounds(s: UnsignedStream)
    requires
        s.wf(),
    ensures
        forall|i: int|
            0 <= i < s.remaining_int().len() ==> 0 <= #[trigger] s.remaining_int()[i]
                <= s.v as int,
{
}


/// The candidate sequence the non-negative strategy proposes for a value of
/// a signed type: the non-negative candidates for a positive value, and
/// only zero and the truncated half for a negative one (the unit-step walk
/// has nowhere to go below zero under this strategy).
pub open spec fn uint_strategy_cands(v: int) -> Seq<int> {
    if v == 0 {
        Seq::empty()
    } else if v > 0 {
        unsigned_cands(v)
    } else {
        seq![0int] + (if half_toward_zero(v) != 0 {
            seq![half_toward_zero(v)]
        } else {
            Seq::empty()
        })
    }
}

/// The running state of a non-negative-strategy candidate stream over a
/// signed value.
pub struct UintStrategyStream {
    pub v: i64,
    pub stage: u8,
    pub walk: u64,
}

impl UintStrategyStream {
    /// Whether the halving proposal applies: half of `v` is not zero.
    pub open spec fn has_half(&self) -> bool {
        half_toward_zero(self.v as int) != 0
    }

    pub open spec fn wf(&self) -> bool {
        &&& self.stage <= 3
        &&& self.stage != 1
        &&& self.stage <= 2 ==> self.v != 0
        &&& self.stage == 2 ==> self.has_half()
        &&& if self.v > 0 {
            self.walk as int <= self.v as int - 1
        } else {
            self.walk == 0
        }
        &&& self.stage < 3 ==> self.walk as int == (if self.v > 0 {
            self.v as int - 1
        } else {
            0int
        })
    }

    /// The candidate views still to come, as integers.
    pub open spec fn remaining_int(&self) -> Seq<int> {
        (if self.stage == 0 {
            seq![0int]
        } else {
            Seq::empty()
        }) + (if self.stage <= 2 && self.has_half() {
            seq![half_toward_zero(self.v as int)]
        } else {
            Seq::empty()
        }) + walk_toward_zero(self.walk as int)
    }

    /// Starts the stream for `v`.
    pub fn start(v: i64) -> (r: UintStrategyStream)
        ensures
            r.wf(),
            r.v == v,
            r.remaining_int() == uint_strategy_cands(v as int),
    {
        if v == 0 {
            UintStrategyStream { v, stage: 3, walk: 0 }
        } else if v > 0 {
            let r = UintStrategyStream { v, stage: 0, walk: (v - 1) as u64 };
            proof {
                assert(r.remaining_int() =~= uint_strategy_cands(v as int));
            }
            r
        } else {
            let r = UintStrategyStream { v, stage: 0, walk: 0 };
            proof {
                assert(r.remaining_int() =~= uint_strategy_cands(v as int));
            }
            r
        }
    }

    /// Produces the next candidate of the stream.
    pub fn next_i64(&mut self) -> (r: Option<i64>)
        requires
            old(self).wf(),
        ensures
            final(self).wf(),
            final(self).v == old(self).v,
            match r {
                Option::Some(c) => old(self).remaining_int().len() > 0 && c as int == old(
                    self,
                ).remaining_int()[0] && final(self).remaining_int() == old(
                    self,
                ).remaining_int().drop_first(),
                Option::None => old(self).remaining_int().len() == 0 && final(self).remaining_int()
                    == old(self).remaining_int(),
            },
    {
        if self.stage == 0 {
            let h = half_i64(self.v);
            self.stage = if h != 0 {
                2
            } else {
                3
            };
            proof {
                assert(final(self).remaining_int() =~= old(self).remaining_int().drop_first());
            }
            Option::Some(0)
        } else if self.stage == 2 {
            let c = half_i64(self.v);
            self.stage = 3;
            proof {
                assert(final(self).remaining_int() =~= old(self).remaining_int().drop_first());
            }
            Option::Some(c)
        } else {
            if self.walk == 0 {
                Option::None
            } else {
                let c = self.walk;
                self.walk = self.walk - 1;
                proof {
                    assert(final(self).remaining_int() =~= old(self).remaining_int().drop_first());
                }
                Option::Some(c as i64)
            }
        }
    }
}

/// Every candidate the stream will still produce stays inside the type's
/// range whenever the shrunk value does, and strictly decreases the signed
/// measure of the value.
pub proof fn lemma_uint_strategy_stream_bounds(s: UintStrategyStream, max: int)
    requires
        s.wf(),
        0 < max,
        -max - 1 <= s.v as int <= max,
    ensures
        forall|i: int|
            0 <= i < s.remaining_int().len() ==> -max - 1 <= #[trigger] s.remaining_int()[i]
                <= max,
{
}

/// Shrink monotonicity for the non-negative strategy over signed values:
/// zero never proposes anything; any other value proposes zero first and
/// exactly once, and every candidate is strictly closer to zero.
pub proof fn lemma_uint_strategy_monotonic(v: int)
    ensures
        v == 0 ==> uint_strategy_cands(v).len() == 0,
        v != 0 ==> uint_strategy_cands(v).len() > 0 && uint_strategy_cands(v)[0] == 0,
        forall|i: int|
            1 <= i < uint_strategy_cands(v).len() ==> #[trigger] uint_strategy_cands(v)[i] != 0,
        forall|i: int|
            0 <= i < uint_strategy_cands(v).len() ==> abs(#[trigger] uint_strategy_cands(v)[i])
                < abs(v),
{
    if v > 0 {
        lemma_unsigned_shrink_monotonic(v);
    }
}

/// A cursor over the non-negative shrink candidates of a value of `X`.
pub struct UintCandidates<X> {
    pub core: UnsignedStream,
    pub _marker: PhantomData<X>,
}

/// Shrinks integers toward zero through their non-negative range: zero
/// first, then half, then unit steps toward zero.
pub struct UnsignedIntegerShrinker<T>(PhantomData<T>);

impl<T> Clone for UnsignedIntegerShrinker<T> {
    fn clone(&self) -> (r: Self)
        ensures
            r == *self,
    {
        UnsignedIntegerShrinker(PhantomData)
    }
}

impl<T> Copy for UnsignedIntegerShrinker<T> {

}

impl<T> Share for UnsignedIntegerShrinker<T> {
    fn share(&self) -> (r: Self)
        ensures
            r == *self,
    {
        UnsignedIntegerShrinker(PhantomData)
    }
}

impl<T> UnsignedIntegerShrinker<T> {
    pub fn new() -> Self {
        UnsignedIntegerShrinker(PhantomData)
    }
}

impl Candidates for UintCandidates<u8> {
    type Item = u8;

    open spec fn wf(&self) -> bool {
        &&& self.core.wf()
        &&& self.core.v as int <= u8::MAX as int
    }

    open spec fn remaining(&self) -> Seq<u8> {
        self.core.remaining_int().map_values(|c: int| c as u8)
    }

    fn next(&mut self) -> (r: Option<u8>)
        ensures
            final(self).wf(),
            match r {
                Option::Some(v) => old(self).remaining().len() > 0 && v.deep_view() == old(
                    self,
                ).remaining()[0] && final(self).remaining() == old(self).remaining().drop_first(),
                Option::None => old(self).remaining().len() == 0 && final(self).remaining() == old(
                    self,
                ).remaining(),
            },
    {
        proof {
            lemma_unsigned_stream_bounds(self.core);
        }
        match self.core.next_u64() {
            Option::Some(c) => {
                proof {
                    assert(final(self).remaining() =~= old(self).remaining().drop_first());
                }
                Option::Some(c as u8)
            },
            Option::None => Option::None,
        }
    }
}

impl Shrink for UnsignedIntegerShrinker<u8> {
    type Item = u8;

    type Iter = UintCandidates<u8>;

    open spec fn cands(&self, v: u8) -> Seq<u8> {
        unsigned_cands(v as int).map_values(|c: int| c as u8)
    }

    open spec fn measure(&self, v: u8) -> nat {
        v as nat
    }

    proof fn cands_decrease(&self, v: u8) {
        lemma_unsigned_shrink_monotonic(v as int);
        assert forall|i: int| 0 <= i < self.cands(v).len() implies self.measure(
            #[trigger] self.cands(v)[i],
        ) < self.measure(v) by {
            let c = unsigned_cands(v as int)[i];
            assert(self.cands(v)[i] == c as u8);
            assert(0 <= c < v as int);
            assert((c as u8) as int == c);
        }
    }

    fn shrink(&self, value: &u8) -> (it: UintCandidates<u8>)
        ensures
            it.wf(),
            it.remaining() == self.cands(value.deep_view()),
    {
        let it = UintCandidates {
            core: UnsignedStream::start(*value as u64),
            _marker: PhantomData,
        };
        proof {
            assert(it.remaining() =~= self.cands(value.deep_view()));
        }
        it
    }
}

impl Candidates for UintCandidates<u16> {
    type Item = u16;

    open spec fn wf(&self) -> bool {
        &&& self.core.wf()
        &&& self.core.v as int <= u16::MAX as int
    }

    open spec fn remaining(&self) -> Seq<u16> {
        self.core.remaining_int().map_values(|c: int| c as u16)
    }

    fn next(&mut self) -> (r: Option<u16>)
        ensures
            final(self).wf(),
            match r {
                Option::Some(v) => old(self).remaining().len() > 0 && v.deep_view() == old(
                    self,
                ).remaining()[0] && final(self).remaining() == old(self).remaining().drop_first(),
                Option::None => old(self).remaining().len() == 0 && final(self).remaining() == old(
                    self,
                ).remaining(),
            },
    {
        proof {
            lemma_unsigned_stream_bounds(self.core);
        }
        match self.core.next_u64() {
            Option::Some(c) => {
                proof {
                    assert(final(self).remaining() =~= old(self).remaining().drop_first());
                }
                Option::Some(c as u16)
            },
            Option::None => Option::None,
        }
    }
}

impl Shrink for UnsignedIntegerShrinker<u16> {
    type Item = u16;

    type Iter = UintCandidates<u16>;

    open spec fn cands(&self, v: u16) -> Seq<u16> {
        unsigned_cands(v as int).map_values(|c: int| c as u16)
    }

    open spec fn measure(&self, v: u16) -> nat {
        v as nat
    }

    proof fn cands_decrease(&self, v: u16) {
        lemma_unsigned_shrink_monotonic(v as int);
        assert forall|i: int| 0 <= i < self.cands(v).len() implies self.measure(
            #[trigger] self.cands(v)[i],
        ) < self.measure(v) by {
            let c = unsigned_cands(v as int)[i];
            assert(self.cands(v)[i] == c as u16);
            assert(0 <= c < v as int);
            assert((c as u16) as int == c);
        }
    }

    fn shrink(&self, value: &u16) -> (it: UintCandidates<u16>)
        ensures
            it.wf(),
            it.remaining() == self.cands(value.deep_view()),
    {
        let it = UintCandidates {
            core: UnsignedStream::start(*value as u64),
            _marker: PhantomData,
        };
        proof {
            assert(it.remaining() =~= self.cands(value.deep_view()));
        }
        it
    }
}

impl Candidates for UintCandidates<u32> {
    type Item = u32;

    open spec fn wf(&self) -> bool {
        &&& self.core.wf()
        &&& self.core.v as int <= u32::MAX as int
    }

    open spec fn remaining(&self) -> Seq<u32> {
        self.core.remaining_int().map_values(|c: int| c as u32)
    }

    fn next(&mut self) -> (r: Option<u32>)
        ensures
            final(self).wf(),
            match r {
                Option::Some(v) => old(self).remaining().len() > 0 && v.deep_view() == old(
                    self,
                ).remaining()[0] && final(self).remaining() == old(self).remaining().drop_first(),
                Option::None => old(self).remaining().len() == 0 && final(self).remaining() == old(
                    self,
                ).remaining(),
            },
    {
        proof {
            lemma_unsigned_stream_bounds(self.core);
        }
        match self.core.next_u64() {
            Option::Some(c) => {
                proof {
                    assert(final(self).remaining() =~= old(self).remaining().drop_first());
                }
                Option::Some(c as u32)
            },
            Option::None => Option::None,
        }
    }
}

impl Shrink for UnsignedIntegerShrinker<u32> {
    type Item = u32;

    type Iter = UintCandidates<u32>;

    open spec fn cands(&self, v: u32) -> Seq<u32> {
        unsigned_cands(v as int).map_values(|c: int| c as u32)
    }

    open spec fn measure(&self, v: u32) -> nat {
        v as nat
    }

    proof fn cands_decrease(&self, v: u32) {
        lemma_unsigned_shrink_monotonic(v as int);
        assert forall|i: int| 0 <= i < self.cands(v).len() implies self.measure(
            #[trigger] self.cands(v)[i],
        ) < self.measure(v) by {
            let c = unsigned_cands(v as int)[i];
            assert(self.cands(v)[i] == c as u32);
            assert(0 <= c < v as int);
            assert((c as u32) as int == c);
        }
    }

    fn shrink(&self, value: &u32) -> (it: UintCandidates<u32>)
        ensures
            it.wf(),
            it.remaining() == self.cands(value.deep_view()),
    {
        let it = UintCandidates {
            core: UnsignedStream::start(*value as u64),
            _marker: PhantomData,
        };
        proof {
            assert(it.remaining() =~= self.cands(value.deep_view()));
        }
        it
    }
}

impl Candidates for UintCandidates<u64> {
    type Item = u64;

    open spec fn wf(&self) -> bool {
        &&& self.core.wf()
        &&& self.core.v as int <= u64::MAX as int
    }

    open spec fn remaining(&self) -> Seq<u64> {
        self.core.remaining_int().map_values(|c: int| c as u64)
    }

    fn next(&mut self) -> (r: Option<u64>)
        ensures
            final(self).wf(),
            match r {
                Option::Some(v) => old(self).remaining().len() > 0 && v.deep_view() == old(
                    self,
                ).remaining()[0] && final(self).remaining() == old(self).remaining().drop_first(),
                Option::None => old(self).remaining().len() == 0 && final(self).remaining() == old(
                    self,
                ).remaining(),
            },
    {
        proof {
            lemma_unsigned_stream_bounds(self.core);
        }
        match self.core.next_u64() {
            Option::Some(c) => {
                proof {
                    assert(final(self).remaining() =~= old(self).remaining().drop_first());
                }
                Option::Some(c as u64)
            },
            Option::None => Option::None,
        }
    }
}

impl Shrink for UnsignedIntegerShrinker<u64> {
    type Item = u64;

    type Iter = UintCandidates<u64>;

    open spec fn cands(&self, v: u64) -> Seq<u64> {
        unsigned_cands(v as int).map_values(|c: int| c as u64)
    }

    open spec fn measure(&self, v: u64) -> nat {
        v as nat
    }

    proof fn cands_decrease(&self, v: u64) {
        lemma_unsigned_shrink_monotonic(v as int);
        assert forall|i: int| 0 <= i < self.cands(v).len() implies self.measure(
            #[trigger] self.cands(v)[i],
        ) < self.measure(v) by {
            let c = unsigned_cands(v as int)[i];
            assert(self.cands(v)[i] == c as u64);
            assert(0 <= c < v as int);
            assert((c as u64) as int == c);
        }
    }

    fn shrink(&self, value: &u64) -> (it: UintCandidates<u64>)
        ensures
            it.wf(),
            it.remaining() == self.cands(value.deep_view()),
    {
        let it = UintCandidates {
            core: UnsignedStream::start(*value as u64),
            _marker: PhantomData,
        };
        proof {
            assert(it.remaining() =~= self.cands(value.deep_view()));
        }
        it
    }
}

impl Candidates for UintCandidates<usize> {
    type Item = usize;

    open spec fn wf(&self) -> bool {
        &&& self.core.wf()
        &&& self.core.v as int <= usize::MAX as int
    }

    open spec fn remaining(&self) -> Seq<usize> {
        self.core.remaining_int().map_values(|c: int| c as usize)
    }

    fn next(&mut self) -> (r: Option<usize>)
        ensures
            final(self).wf(),
            match r {
                Option::Some(v) => old(self).remaining().len() > 0 && v.deep_view() == old(
                    self,
                ).remaining()[0] && final(self).remaining() == old(self).remaining().drop_first(),
                Option::None => old(self).remaining().len() == 0 && final(self).remaining() == old(
                    self,
                ).remaining(),
            },
    {
        proof {
            lemma_unsigned_stream_bounds(self.core);
        }
        match self.core.next_u64() {
            Option::Some(c) => {
                proof {
                    assert(final(self).remaining() =~= old(self).remaining().drop_first());
                }
                Option::Some(c as usize)
            },
            Option::None => Option::None,
        }
    }
}

impl Shrink for UnsignedIntegerShrinker<usize> {
    type Item = usize;

    type Iter = UintCandidates<usize>;

    open spec fn cands(&self, v: usize) -> Seq<usize> {
        unsigned_cands(v as int).map_values(|c: int| c as usize)
    }

    open spec fn measure(&self, v: usize) -> nat {
        v as nat
    }

    proof fn cands_decrease(&self, v: usize) {
        lemma_unsigned_shrink_monotonic(v as int);
        assert forall|i: int| 0 <= i < self.cands(v).len() implies self.measure(
            #[trigger] self.cands(v)[i],
        ) < self.measure(v) by {
            let c = unsigned_cands(v as int)[i];
            assert(self.cands(v)[i] == c as usize);
            assert(0 <= c < v as int);
            assert((c as usize) as int == c);
        }
    }

    fn shrink(&self, value: &usize) -> (it: UintCandidates<usize>)
        ensures
            it.wf(),
            it.remaining() == self.cands(value.deep_view()),
    {
        let it = UintCandidates {
            core: UnsignedStream::start(*value as u64),
            _marker: PhantomData,
        };
        proof {
            assert(it.remaining() =~= self.cands(value.deep_view()));
        }
        it
    }
}


/// Shrink monotonicity for signed integers: zero never proposes anything;
/// any other value proposes zero first and exactly once, and every other
/// candidate is strictly closer to zero than the value itself, with the one
/// exception of the magnitude proposed for a negative value, which matches
/// it in absolute value.
pub proof fn lemma_signed_shrink_monotonic(v: int, max: int)
    requires
        0 < max,
        -max - 1 <= v <= max,
    ensures
        v == 0 ==> signed_cands(v, max).len() == 0,
        v != 0 ==> signed_cands(v, max).len() > 0 && signed_cands(v, max)[0] == 0,
        forall|i: int|
            1 <= i < signed_cands(v, max).len() ==> #[trigger] signed_cands(v, max)[i] != 0,
        forall|i: int|
            0 <= i < signed_cands(v, max).len() ==> abs(#[trigger] signed_cands(v, max)[i]) <= abs(
                v,
            ),
        forall|i: int|
            0 <= i < signed_cands(v, max).len() ==> (abs(#[trigger] signed_cands(v, max)[i]) < abs(
                v,
            ) || (v < 0 && signed_cands(v, max)[i] == -v)),
{
}

/// How far a signed value is from zero, for termination of the shrink
/// search: twice the magnitude, with negative values ranked one above
/// their own magnitude so that proposing the magnitude still descends.
pub open spec fn signed_measure(c: int) -> int {
    2 * abs(c) + if c < 0 {
        1int
    } else {
        0int
    }
}

/// Every signed candidate stays in the type's range and strictly decreases
/// the signed measure.
pub proof fn lemma_signed_measure_decreases(v: int, max: int)
    requires
        0 < max,
        -max - 1 <= v <= max,
    ensures
        forall|i: int|
            0 <= i < signed_cands(v, max).len() ==> -max <= #[trigger] signed_cands(v, max)[i]
                <= max,
        forall|i: int|
            0 <= i < signed_cands(v, max).len() ==> signed_measure(
                #[trigger] signed_cands(v, max)[i],
            ) < signed_measure(v),
{
    lemma_signed_shrink_monotonic(v, max);
}

/// Shrink monotonicity for non-negative integers: zero never proposes
/// anything; any other value proposes zero first and exactly once, and
/// every candidate is strictly below the value itself.
pub proof fn lemma_unsigned_shrink_monotonic(v: int)
    requires
        0 <= v,
    ensures
        v == 0 ==> unsigned_cands(v).len() == 0,
        v != 0 ==> unsigned_cands(v).len() > 0 && unsigned_cands(v)[0] == 0,
        forall|i: int| 1 <= i < unsigned_cands(v).len() ==> #[trigger] unsigned_cands(v)[i] != 0,
        forall|i: int| 0 <= i < unsigned_cands(v).len() ==> 0 <= #[trigger] unsigned_cands(v)[i] < v,
{
}


/// One proposal of the chunk-removal pass: `v` with the elements of
/// `[offset, offset + k)` taken out, clamped to the end of the sequence.
pub open spec fn remove_chunk<V>(v: Seq<V>, offset: int, k: int) -> Seq<V> {
    let end = if offset + k > v.len() {
        v.len() as int
    } else {
        offset + k
    };
    v.subrange(0, offset) + v.subrange(end, v.len() as int)
}

/// The chunk-removal proposals for one chunk width `k`, walking the offsets
/// `offset, offset + k, ...` left to right.
pub open spec fn removes_seq<V>(v: Seq<V>, k: int, offset: int) -> Seq<Seq<V>>
    decreases v.len() + k - offset,
{
    if k < 1 || !(0 <= offset < v.len()) {
        Seq::empty()
    } else {
        seq![remove_chunk(v, offset, k)] + removes_seq(v, k, offset + k)
    }
}

/// All chunk-removal proposals: whole-sequence removal first, then chunks of
/// halving width down to single elements.
pub open spec fn chunks_seq<V>(v: Seq<V>, k: int) -> Seq<Seq<V>>
    decreases k,
{
    if k < 1 {
        Seq::empty()
    } else {
        removes_seq(v, k, 0) + chunks_seq(v, k / 2)
    }
}

/// The in-place element proposals: for each position from `idx` on, the
/// sequence with that one element replaced by its own first shrink
/// candidate, skipping elements that propose nothing.
pub open spec fn elem_shrinks<S: Shrink>(
    s: S,
    v: Seq<<S::Item as DeepView>::V>,
    idx: int,
) -> Seq<Seq<<S::Item as DeepView>::V>>
    decreases v.len() - idx,
{
    if !(0 <= idx < v.len()) {
        Seq::empty()
    } else {
        (if s.cands(v[idx]).len() > 0 {
            seq![v.update(idx, s.cands(v[idx])[0])]
        } else {
            Seq::empty()
        }) + elem_shrinks(s, v, idx + 1)
    }
}

/// The whole candidate sequence for a collection: chunk removals of
/// log-depth widths first, then single-element shrinks in place, never both
/// in one proposal.
pub open spec fn collection_cands<S: Shrink>(
    s: S,
    v: Seq<<S::Item as DeepView>::V>,
) -> Seq<Seq<<S::Item as DeepView>::V>> {
    chunks_seq(v, v.len() as int) + elem_shrinks(s, v, 0)
}

/// A copy of `v` with `[offset, offset + k)` removed.
fn vec_remove_chunk<T: Dup>(v: &Vec<T>, offset: usize, k: usize) -> (r: Vec<T>)
    requires
        offset < v.len(),
        k >= 1,
    ensures
        r.deep_view() == remove_chunk(v.deep_view(), offset as int, k as int),
{
    let len = v.len();
    let end = if k > len - offset {
        len
    } else {
        offset + k
    };
    let mut r: Vec<T> = Vec::new();
    let mut i: usize = 0;
    while i < offset
        invariant
            i <= offset,
            offset < v.len(),
            r@.len() == i,
            forall|j: int| 0 <= j < i ==> r.deep_view()[j] == v.deep_view()[j],
        decreases offset - i,
    {
        let ghost prev = r.deep_view();
        r.push(v[i].dup());
        proof {
            assert(forall|j: int| 0 <= j < i ==> r.deep_view()[j] == prev[j]);
        }
        i += 1;
    }
    let mut t: usize = end;
    while t < len
        invariant
            end <= t <= len,
            len == v.len(),
            offset < v.len(),
            end == if k > len - offset {
                len as int
            } else {
                offset + k
            },
            r@.len() == offset + (t - end),
            forall|j: int| 0 <= j < offset ==> r.deep_view()[j] == v.deep_view()[j],
            forall|j: int|
                offset <= j < r@.len() ==> r.deep_view()[j] == v.deep_view()[j - offset + end],
        decreases len - t,
    {
        let ghost prev = r.deep_view();
        r.push(v[t].dup());
        proof {
            assert(forall|j: int| 0 <= j < prev.len() ==> r.deep_view()[j] == prev[j]);
            assert(r.deep_view()[prev.len() as int] == v.deep_view()[t as int]);
            assert forall|j: int| offset <= j < r@.len() implies r.deep_view()[j] == v.deep_view()[j
                - offset + end] by {
                if j < prev.len() {
                    assert(r.deep_view()[j] == prev[j]);
                    assert(prev[j] == v.deep_view()[j - offset + end]);
                } else {
                    assert(j == prev.len());
                    assert(j - offset + end == t as int);
                }
            }
        }
        t += 1;
    }
    proof {
        assert(r.deep_view() =~= remove_chunk(v.deep_view(), offset as int, k as int));
    }
    r
}

/// A copy of `v` with the element at `idx` replaced by `x`.
fn vec_replace_at<T: Dup>(v: &Vec<T>, idx: usize, x: T) -> (r: Vec<T>)
    requires
        idx < v.len(),
    ensures
        r.deep_view() == v.deep_view().update(idx as int, x.deep_view()),
{
    let mut r: Vec<T> = Vec::new();
    let mut i: usize = 0;
    while i < v.len()
        invariant
            i <= v.len(),
            idx < v.len(),
            r@.len() == i,
            forall|j: int| 0 <= j < i && j != idx ==> r.deep_view()[j] == v.deep_view()[j],
            idx < i ==> r.deep_view()[idx as int] == x.deep_view(),
        decreases v.len() - i,
    {
        let ghost prev = r.deep_view();
        if i == idx {
            r.push(x.dup());
        } else {
            r.push(v[i].dup());
        }
        proof {
            assert(forall|j: int| 0 <= j < i ==> r.deep_view()[j] == prev[j]);
        }
        i += 1;
    }
    proof {
        assert(r.deep_view() =~= v.deep_view().update(idx as int, x.deep_view()));
    }
    r
}

/// A cursor over the collection candidates: first the chunk-removal passes,
/// then the element pass.
pub struct FromIterCandidates<S: Shrink> {
    pub elements: Vec<S::Item>,
    pub k: usize,
    pub offset: usize,
    pub idx: usize,
    pub shrinker: S,
}

impl<S: Shrink + Share> FromIterCandidates<S> where S::Item: Dup {
    /// The views of the elements being shrunk.
    pub open spec fn ev(&self) -> Seq<<S::Item as DeepView>::V> {
        self.elements.deep_view()
    }
}

impl<S: Shrink + Share> Candidates for FromIterCandidates<S> where S::Item: Dup {
    type Item = Vec<S::Item>;

    open spec fn wf(&self) -> bool {
        &&& self.k as int <= self.ev().len()
        &&& self.k > 0 ==> self.idx == 0
    }

    open spec fn remaining(&self) -> Seq<Seq<<S::Item as DeepView>::V>> {
        if self.k > 0 {
            removes_seq(self.ev(), self.k as int, self.offset as int) + chunks_seq(
                self.ev(),
                self.k as int / 2,
            ) + elem_shrinks(self.shrinker, self.ev(), 0)
        } else {
            elem_shrinks(self.shrinker, self.ev(), self.idx as int)
        }
    }

    fn next(&mut self) -> (r: Option<Vec<S::Item>>)
        ensures
            final(self).wf(),
            match r {
                Option::Some(v) => old(self).remaining().len() > 0 && v.deep_view() == old(
                    self,
                ).remaining()[0] && final(self).remaining() == old(self).remaining().drop_first(),
                Option::None => old(self).remaining().len() == 0 && final(self).remaining() == old(
                    self,
                ).remaining(),
            },
    {
        let ghost r0 = old(self).remaining();
        let len = self.elements.len();
        if self.k > 0 && self.offset >= len {
            proof {
                assert(removes_seq(self.ev(), self.k as int, self.offset as int) =~= Seq::<
                    Seq<<S::Item as DeepView>::V>,
                >::empty());
            }
            self.k = self.k / 2;
            self.offset = 0;
            proof {
                assert(self.remaining() =~= r0);
            }
        }
        if self.k > 0 {
            let ghost pre0 = *self;
            let c = vec_remove_chunk(&self.elements, self.offset, self.k);
            let bump = if self.k > len - self.offset {
                len
            } else {
                self.offset + self.k
            };
            let ghost pre = *self;
            self.offset = bump;
            proof {
                assert(removes_seq(pre.ev(), pre.k as int, pre.offset as int) == seq![
                    remove_chunk(pre.ev(), pre.offset as int, pre.k as int),
                ] + removes_seq(pre.ev(), pre.k as int, pre.offset as int + pre.k as int));
                assert(r0 == pre.remaining());
                assert(r0[0] == remove_chunk(pre.ev(), pre.offset as int, pre.k as int));
                if bump < len {
                    assert(self.remaining() =~= r0.drop_first());
                } else {
                    assert(removes_seq(self.ev(), self.k as int, bump as int) =~= Seq::<
                        Seq<<S::Item as DeepView>::V>,
                    >::empty());
                    assert(removes_seq(pre.ev(), pre.k as int, pre.offset as int + pre.k as int)
                        =~= Seq::<Seq<<S::Item as DeepView>::V>>::empty());
                    assert(self.remaining() =~= r0.drop_first());
                }
            }
            return Option::Some(c);
        }
        while self.idx < len
            invariant
                self.k == 0,
                len == self.elements.len(),
                *self == (FromIterCandidates { idx: self.idx, ..*old(self) }) || *self == (
                FromIterCandidates { idx: self.idx, k: 0usize, offset: 0usize, ..*old(self) }),
                r0 == old(self).remaining(),
                self.remaining() == r0,
                self.wf(),
            decreases len - self.idx,
        {
            let cur = self.idx;
            let ghost cur_rem = self.remaining();
            proof {
                assert(cur_rem == r0);
                assert(self.ev()[cur as int] == self.elements@[cur as int].deep_view());
            }
            let mut it = self.shrinker.shrink(&self.elements[cur]);
            let first = it.next();
            self.idx = cur + 1;
            match first {
                Option::Some(c0) => {
                    let out = vec_replace_at(&self.elements, cur, c0);
                    proof {
                        assert(self.shrinker.cands(self.ev()[cur as int]).len() > 0);
                        assert(cur_rem == (if self.shrinker.cands(self.ev()[cur as int]).len() > 0 {
                            seq![self.ev().update(cur as int, self.shrinker.cands(self.ev()[cur as int])[0])]
                        } else {
                            Seq::empty()
                        }) + elem_shrinks(self.shrinker, self.ev(), cur as int + 1));
                        assert(r0[0] == self.ev().update(
                            cur as int,
                            self.shrinker.cands(self.ev()[cur as int])[0],
                        ));
                        assert(out.deep_view() == r0[0]);
                        assert(self.remaining() =~= r0.drop_first());
                        assert(old(self).remaining() == r0);
                    }
                    return Option::Some(out);
                },
                Option::None => {
                    proof {
                        assert(self.shrinker.cands(self.ev()[cur as int]).len() == 0);
                        assert(self.remaining() =~= r0);
                    }
                },
            }
        }
        Option::None
    }
}


/// How far a collection is from minimal: one unit per element, plus each
/// element's own distance under the element shrinker.
pub open spec fn seq_measure<S: Shrink>(s: S, v: Seq<<S::Item as DeepView>::V>) -> nat
    decreases v.len(),
{
    if v.len() == 0 {
        0
    } else {
        1 + s.measure(v[0]) + seq_measure(s, v.drop_first())
    }
}

proof fn lemma_seq_measure_concat<S: Shrink>(
    s: S,
    a: Seq<<S::Item as DeepView>::V>,
    b: Seq<<S::Item as DeepView>::V>,
)
    ensures
        seq_measure(s, a + b) == seq_measure(s, a) + seq_measure(s, b),
    decreases a.len(),
{
    if a.len() == 0 {
        assert(a + b =~= b);
    } else {
        lemma_seq_measure_concat(s, a.drop_first(), b);
        assert((a + b).drop_first() =~= a.drop_first() + b);
        assert((a + b)[0] == a[0]);
    }
}

proof fn lemma_seq_measure_parts<S: Shrink>(s: S, v: Seq<<S::Item as DeepView>::V>, lo: int, hi: int)
    requires
        0 <= lo <= hi <= v.len(),
    ensures
        seq_measure(s, v) == seq_measure(s, v.subrange(0, lo)) + seq_measure(
            s,
            v.subrange(lo, hi),
        ) + seq_measure(s, v.subrange(hi, v.len() as int)),
{
    assert(v =~= v.subrange(0, lo) + v.subrange(lo, hi) + v.subrange(hi, v.len() as int));
    lemma_seq_measure_concat(s, v.subrange(0, lo) + v.subrange(lo, hi), v.subrange(hi, v.len() as int));
    lemma_seq_measure_concat(s, v.subrange(0, lo), v.subrange(lo, hi));
}

proof fn lemma_seq_measure_pos<S: Shrink>(s: S, v: Seq<<S::Item as DeepView>::V>)
    ensures
        seq_measure(s, v) >= v.len(),
    decreases v.len(),
{
    if v.len() > 0 {
        lemma_seq_measure_pos(s, v.drop_first());
    }
}

proof fn lemma_remove_chunk_measure<S: Shrink>(
    s: S,
    v: Seq<<S::Item as DeepView>::V>,
    offset: int,
    k: int,
)
    requires
        0 <= offset < v.len(),
        k >= 1,
    ensures
        seq_measure(s, remove_chunk(v, offset, k)) < seq_measure(s, v),
{
    let end = if offset + k > v.len() {
        v.len() as int
    } else {
        offset + k
    };
    lemma_seq_measure_parts(s, v, offset, end);
    lemma_seq_measure_concat(s, v.subrange(0, offset), v.subrange(end, v.len() as int));
    lemma_seq_measure_pos(s, v.subrange(offset, end));
}

proof fn lemma_removes_measure<S: Shrink>(s: S, v: Seq<<S::Item as DeepView>::V>, k: int, offset: int)
    requires
        k >= 1,
    ensures
        forall|i: int|
            0 <= i < removes_seq(v, k, offset).len() ==> seq_measure(
                s,
                #[trigger] removes_seq(v, k, offset)[i],
            ) < seq_measure(s, v),
    decreases v.len() + k - offset,
{
    if 0 <= offset < v.len() {
        lemma_removes_measure(s, v, k, offset + k);
        lemma_remove_chunk_measure(s, v, offset, k);
        assert forall|i: int| 0 <= i < removes_seq(v, k, offset).len() implies seq_measure(
            s,
            #[trigger] removes_seq(v, k, offset)[i],
        ) < seq_measure(s, v) by {
            if i > 0 {
                assert(removes_seq(v, k, offset)[i] == removes_seq(v, k, offset + k)[i - 1]);
            }
        }
    }
}

proof fn lemma_chunks_measure<S: Shrink>(s: S, v: Seq<<S::Item as DeepView>::V>, k: int)
    ensures
        forall|i: int|
            0 <= i < chunks_seq(v, k).len() ==> seq_measure(s, #[trigger] chunks_seq(v, k)[i])
                < seq_measure(s, v),
    decreases k,
{
    if k >= 1 {
        lemma_removes_measure(s, v, k, 0);
        lemma_chunks_measure(s, v, k / 2);
        assert forall|i: int| 0 <= i < chunks_seq(v, k).len() implies seq_measure(
            s,
            #[trigger] chunks_seq(v, k)[i],
        ) < seq_measure(s, v) by {
            if i >= removes_seq(v, k, 0).len() {
                assert(chunks_seq(v, k)[i] == chunks_seq(v, k / 2)[i - removes_seq(v, k, 0).len()]);
            }
        }
    }
}

proof fn lemma_update_measure<S: Shrink>(
    s: S,
    v: Seq<<S::Item as DeepView>::V>,
    idx: int,
    c: <S::Item as DeepView>::V,
)
    requires
        0 <= idx < v.len(),
        s.measure(c) < s.measure(v[idx]),
    ensures
        seq_measure(s, v.update(idx, c)) < seq_measure(s, v),
    decreases idx,
{
    if idx == 0 {
        assert(v.update(0, c).drop_first() =~= v.drop_first());
        assert(v.update(0, c)[0] == c);
    } else {
        lemma_update_measure(s, v.drop_first(), idx - 1, c);
        assert(v.update(idx, c).drop_first() =~= v.drop_first().update(idx - 1, c));
        assert(v.update(idx, c)[0] == v[0]);
    }
}

proof fn lemma_elem_shrinks_measure<S: Shrink>(s: S, v: Seq<<S::Item as DeepView>::V>, idx: int)
    ensures
        forall|i: int|
            0 <= i < elem_shrinks(s, v, idx).len() ==> seq_measure(
                s,
                #[trigger] elem_shrinks(s, v, idx)[i],
            ) < seq_measure(s, v),
    decreases v.len() - idx,
{
    if 0 <= idx < v.len() {
        lemma_elem_shrinks_measure(s, v, idx + 1);
        let head: Seq<Seq<<S::Item as DeepView>::V>> = if s.cands(v[idx]).len() > 0 {
            seq![v.update(idx, s.cands(v[idx])[0])]
        } else {
            Seq::empty()
        };
        if s.cands(v[idx]).len() > 0 {
            s.cands_decrease(v[idx]);
            lemma_update_measure(s, v, idx, s.cands(v[idx])[0]);
        }
        assert forall|i: int| 0 <= i < elem_shrinks(s, v, idx).len() implies seq_measure(
            s,
            #[trigger] elem_shrinks(s, v, idx)[i],
        ) < seq_measure(s, v) by {
            if i >= head.len() {
                assert(elem_shrinks(s, v, idx)[i] == elem_shrinks(s, v, idx + 1)[i - head.len()]);
            }
        }
    }
}

/// Shrinks a collection by removing contiguous chunks of halving width and
/// then shrinking single elements in place.
pub struct FromIteratorShrinker<C, S> {
    pub shrinker: S,
    pub _marker: PhantomData<C>,
}

impl<C, S: Copy> Clone for FromIteratorShrinker<C, S> {
    fn clone(&self) -> (r: Self)
        ensures
            r == *self,
    {
        FromIteratorShrinker { shrinker: self.shrinker, _marker: PhantomData }
    }
}

impl<C, S: Copy> Copy for FromIteratorShrinker<C, S> {

}

impl<C, S: Share> Share for FromIteratorShrinker<C, S> {
    fn share(&self) -> (r: Self)
        ensures
            r == *self,
    {
        FromIteratorShrinker { shrinker: self.shrinker.share(), _marker: PhantomData }
    }
}

impl<C, S> FromIteratorShrinker<C, S> {
    pub fn new(shrinker: S) -> (r: Self)
        ensures
            r.shrinker == shrinker,
    {
        FromIteratorShrinker { shrinker, _marker: PhantomData }
    }
}

impl<S: Shrink + Share> Shrink for FromIteratorShrinker<Vec<S::Item>, S> where
    S::Item: Dup,
 {
    type Item = Vec<S::Item>;

    type Iter = FromIterCandidates<S>;

    open spec fn cands(&self, v: Seq<<S::Item as DeepView>::V>) -> Seq<
        Seq<<S::Item as DeepView>::V>,
    > {
        collection_cands(self.shrinker, v)
    }

    open spec fn measure(&self, v: Seq<<S::Item as DeepView>::V>) -> nat {
        seq_measure(self.shrinker, v)
    }

    proof fn cands_decrease(&self, v: Seq<<S::Item as DeepView>::V>) {
        let n = v.len() as int;
        lemma_chunks_measure(self.shrinker, v, n);
        lemma_elem_shrinks_measure(self.shrinker, v, 0);
        assert forall|i: int| 0 <= i < self.cands(v).len() implies self.measure(
            #[trigger] self.cands(v)[i],
        ) < self.measure(v) by {
            if i < chunks_seq(v, n).len() {
                assert(collection_cands(self.shrinker, v)[i] == chunks_seq(v, n)[i]);
            } else {
                assert(collection_cands(self.shrinker, v)[i] == elem_shrinks(self.shrinker, v, 0)[i
                    - chunks_seq(v, n).len()]);
            }
        }
    }

    fn shrink(&self, value: &Vec<S::Item>) -> (it: FromIterCandidates<S>)
        ensures
            it.wf(),
            it.remaining() == self.cands(value.deep_view()),
    {
        let it = FromIterCandidates {
            elements: value.dup(),
            k: value.len(),
            offset: 0,
            idx: 0,
            shrinker: self.shrinker.share(),
        };
        proof {
            if it.k > 0 {
                assert(it.remaining() =~= self.cands(value.deep_view()));
            } else {
                assert(it.remaining() =~= self.cands(value.deep_view()));
            }
        }
        it
    }
}


proof fn lemma_removes_shorter<V>(v: Seq<V>, k: int, offset: int)
    requires
        k >= 1,
    ensures
        forall|i: int|
            0 <= i < removes_seq(v, k, offset).len() ==> (#[trigger] removes_seq(v, k, offset)[i]).len() < v.len(),
    decreases v.len() + k - offset,
{
    if 0 <= offset < v.len() {
        lemma_removes_shorter(v, k, offset + k);
        assert(remove_chunk(v, offset, k).len() < v.len());
        assert forall|i: int| 0 <= i < removes_seq(v, k, offset).len() implies (
        #[trigger] removes_seq(v, k, offset)[i]).len() < v.len() by {
            if i > 0 {
                assert(removes_seq(v, k, offset)[i] == removes_seq(v, k, offset + k)[i - 1]);
            }
        }
    }
}

proof fn lemma_chunks_shorter<V>(v: Seq<V>, k: int)
    ensures
        forall|i: int|
            0 <= i < chunks_seq(v, k).len() ==> (#[trigger] chunks_seq(v, k)[i]).len() < v.len(),
    decreases k,
{
    if k >= 1 {
        lemma_removes_shorter(v, k, 0);
        lemma_chunks_shorter(v, k / 2);
        assert forall|i: int| 0 <= i < chunks_seq(v, k).len() implies (#[trigger] chunks_seq(v, k)[
        i]).len() < v.len() by {
            if i >= removes_seq(v, k, 0).len() {
                assert(chunks_seq(v, k)[i] == chunks_seq(v, k / 2)[i - removes_seq(
                    v,
                    k,
                    0,
                ).len()]);
            }
        }
    }
}

proof fn lemma_elem_shrinks_same_len<S: Shrink>(s: S, v: Seq<<S::Item as DeepView>::V>, idx: int)
    ensures
        forall|i: int|
            0 <= i < elem_shrinks(s, v, idx).len() ==> (#[trigger] elem_shrinks(s, v, idx)[i]).len() == v.len(),
    decreases v.len() - idx,
{
    if 0 <= idx < v.len() {
        lemma_elem_shrinks_same_len(s, v, idx + 1);
        let head: Seq<Seq<<S::Item as DeepView>::V>> = if s.cands(v[idx]).len() > 0 {
            seq![v.update(idx, s.cands(v[idx])[0])]
        } else {
            Seq::empty()
        };
        assert forall|i: int| 0 <= i < elem_shrinks(s, v, idx).len() implies (
        #[trigger] elem_shrinks(s, v, idx)[i]).len() == v.len() by {
            if i >= head.len() {
                assert(elem_shrinks(s, v, idx)[i] == elem_shrinks(s, v, idx + 1)[i - head.len()]);
            }
        }
    }
}

/// Shrink termination and boundedness for collections: the proposal
/// sequence is finite, no proposal is longer than the original, every
/// chunk-removal proposal is strictly shorter, the first proposal for a
/// non-empty collection is the empty collection, and the empty collection
/// proposes nothing.
pub proof fn lemma_collection_shrink_bounded<S: Shrink>(s: S, v: Seq<<S::Item as DeepView>::V>)
    ensures
        forall|i: int|
            0 <= i < collection_cands(s, v).len() ==> (#[trigger] collection_cands(s, v)[i]).len() <= v.len(),
        forall|i: int|
            0 <= i < chunks_seq(v, v.len() as int).len() ==> (collection_cands(s, v)[i]).len()
                < v.len(),
        v.len() == 0 ==> collection_cands(s, v).len() == 0,
        v.len() > 0 ==> collection_cands(s, v).len() > 0 && collection_cands(s, v)[0]
            == Seq::<<S::Item as DeepView>::V>::empty(),
{
    let n = v.len() as int;
    lemma_chunks_shorter(v, n);
    lemma_elem_shrinks_same_len(s, v, 0);
    assert forall|i: int| 0 <= i < collection_cands(s, v).len() implies (
    #[trigger] collection_cands(s, v)[i]).len() <= v.len() by {
        if i < chunks_seq(v, n).len() {
            assert(collection_cands(s, v)[i] == chunks_seq(v, n)[i]);
        } else {
            assert(collection_cands(s, v)[i] == elem_shrinks(s, v, 0)[i - chunks_seq(v, n).len()]);
        }
    }
    assert forall|i: int| 0 <= i < chunks_seq(v, n).len() implies (collection_cands(s, v)[
    i]).len() < v.len() by {
        assert(collection_cands(s, v)[i] == chunks_seq(v, n)[i]);
    }
    if v.len() > 0 {
        assert(removes_seq(v, n, 0)[0] == remove_chunk(v, 0, n));
        assert(collection_cands(s, v)[0] == remove_chunk(v, 0, n));
        assert(remove_chunk(v, 0, n) =~= Seq::<<S::Item as DeepView>::V>::empty());
    }
}



/// A cursor over the non-negative-strategy shrink candidates of a signed
/// value of `X`.
pub struct UintStrategyCandidates<X> {
    pub core: UintStrategyStream,
    pub _marker: PhantomData<X>,
}

impl Candidates for UintStrategyCandidates<i8> {
    type Item = i8;

    open spec fn wf(&self) -> bool {
        &&& self.core.wf()
        &&& i8::MIN as int <= self.core.v as int <= i8::MAX as int
    }

    open spec fn remaining(&self) -> Seq<i8> {
        self.core.remaining_int().map_values(|c: int| c as i8)
    }

    fn next(&mut self) -> (r: Option<i8>)
        ensures
            final(self).wf(),
            match r {
                Option::Some(v) => old(self).remaining().len() > 0 && v.deep_view() == old(
                    self,
                ).remaining()[0] && final(self).remaining() == old(self).remaining().drop_first(),
                Option::None => old(self).remaining().len() == 0 && final(self).remaining() == old(
                    self,
                ).remaining(),
            },
    {
        proof {
            lemma_uint_strategy_stream_bounds(self.core, i8::MAX as int);
        }
        match self.core.next_i64() {
            Option::Some(c) => {
                proof {
                    assert(final(self).remaining() =~= old(self).remaining().drop_first());
                }
                Option::Some(c as i8)
            },
            Option::None => Option::None,
        }
    }
}

impl Shrink for UnsignedIntegerShrinker<i8> {
    type Item = i8;

    type Iter = UintStrategyCandidates<i8>;

    open spec fn cands(&self, v: i8) -> Seq<i8> {
        uint_strategy_cands(v as int).map_values(|c: int| c as i8)
    }

    open spec fn measure(&self, v: i8) -> nat {
        signed_measure(v as int) as nat
    }

    proof fn cands_decrease(&self, v: i8) {
        lemma_uint_strategy_monotonic(v as int);
        lemma_uint_strategy_stream_bounds(
            UintStrategyStream {
                v: v as i64,
                stage: if v == 0 {
                    3
                } else {
                    0
                },
                walk: if v as int > 0 {
                    (v - 1) as u64
                } else {
                    0
                },
            },
            i8::MAX as int,
        );
        assert forall|i: int| 0 <= i < self.cands(v).len() implies self.measure(
            #[trigger] self.cands(v)[i],
        ) < self.measure(v) by {
            let c = uint_strategy_cands(v as int)[i];
            assert(self.cands(v)[i] == c as i8);
            assert(abs(c) < abs(v as int));
            assert(-(i8::MAX as int) - 1 <= c <= i8::MAX as int);
            assert((c as i8) as int == c);
        }
    }

    fn shrink(&self, value: &i8) -> (it: UintStrategyCandidates<i8>)
        ensures
            it.wf(),
            it.remaining() == self.cands(value.deep_view()),
    {
        let it = UintStrategyCandidates {
            core: UintStrategyStream::start(*value as i64),
            _marker: PhantomData,
        };
        proof {
            assert(it.remaining() =~= self.cands(value.deep_view()));
        }
        it
    }
}

impl Candidates for UintStrategyCandidates<i16> {
    type Item = i16;

    open spec fn wf(&self) -> bool {
        &&& self.core.wf()
        &&& i16::MIN as int <= self.core.v as int <= i16::MAX as int
    }

    open spec fn remaining(&self) -> Seq<i16> {
        self.core.remaining_int().map_values(|c: int| c as i16)
    }

    fn next(&mut self) -> (r: Option<i16>)
        ensures
            final(self).wf(),
            match r {
                Option::Some(v) => old(self).remaining().len() > 0 && v.deep_view() == old(
                    self,
                ).remaining()[0] && final(self).remaining() == old(self).remaining().drop_first(),
                Option::None => old(self).remaining().len() == 0 && final(self).remaining() == old(
                    self,
                ).remaining(),
            },
    {
        proof {
            lemma_uint_strategy_stream_bounds(self.core, i16::MAX as int);
        }
        match self.core.next_i64() {
            Option::Some(c) => {
                proof {
                    assert(final(self).remaining() =~= old(self).remaining().drop_first());
                }
                Option::Some(c as i16)
            },
            Option::None => Option::None,
        }
    }
}

impl Shrink for UnsignedIntegerShrinker<i16> {
    type Item = i16;

    type Iter = UintStrategyCandidates<i16>;

    open spec fn cands(&self, v: i16) -> Seq<i16> {
        uint_strategy_cands(v as int).map_values(|c: int| c as i16)
    }

    open spec fn measure(&self, v: i16) -> nat {
        signed_measure(v as int) as nat
    }

    proof fn cands_decrease(&self, v: i16) {
        lemma_uint_strategy_monotonic(v as int);
        lemma_uint_strategy_stream_bounds(
            UintStrategyStream {
                v: v as i64,
                stage: if v == 0 {
                    3
                } else {
                    0
                },
                walk: if v as int > 0 {
                    (v - 1) as u64
                } else {
                    0
                },
            },
            i16::MAX as int,
        );
        assert forall|i: int| 0 <= i < self.cands(v).len() implies self.measure(
            #[trigger] self.cands(v)[i],
        ) < self.measure(v) by {
            let c = uint_strategy_cands(v as int)[i];
            assert(self.cands(v)[i] == c as i16);
            assert(abs(c) < abs(v as int));
            assert(-(i16::MAX as int) - 1 <= c <= i16::MAX as int);
            assert((c as i16) as int == c);
        }
    }

    fn shrink(&self, value: &i16) -> (it: UintStrategyCandidates<i16>)
        ensures
            it.wf(),
            it.remaining() == self.cands(value.deep_view()),
    {
        let it = UintStrategyCandidates {
            core: UintStrategyStream::start(*value as i64),
            _marker: PhantomData,
        };
        proof {
            assert(it.remaining() =~= self.cands(value.deep_view()));
        }
        it
    }
}

impl Candidates for UintStrategyCandidates<i32> {
    type Item = i32;

    open spec fn wf(&self) -> bool {
        &&& self.core.wf()
        &&& i32::MIN as int <= self.core.v as int <= i32::MAX as int
    }

    open spec fn remaining(&self) -> Seq<i32> {
        self.core.remaining_int().map_values(|c: int| c as i32)
    }

    fn next(&mut self) -> (r: Option<i32>)
        ensures
            final(self).wf(),
            match r {
                Option::Some(v) => old(self).remaining().len() > 0 && v.deep_view() == old(
                    self,
                ).remaining()[0] && final(self).remaining() == old(self).remaining().drop_first(),
                Option::None => old(self).remaining().len() == 0 && final(self).remaining() == old(
                    self,
                ).remaining(),
            },
    {
        proof {
            lemma_uint_strategy_stream_bounds(self.core, i32::MAX as int);
        }
        match self.core.next_i64() {
            Option::Some(c) => {
                proof {
                    assert(final(self).remaining() =~= old(self).remaining().drop_first());
                }
                Option::Some(c as i32)
            },
            Option::None => Option::None,
        }
    }
}

impl Shrink for UnsignedIntegerShrinker<i32> {
    type Item = i32;

    type Iter = UintStrategyCandidates<i32>;

    open spec fn cands(&self, v: i32) -> Seq<i32> {
        uint_strategy_cands(v as int).map_values(|c: int| c as i32)
    }

    open spec fn measure(&self, v: i32) -> nat {
        signed_measure(v as int) as nat
    }

    proof fn cands_decrease(&self, v: i32) {
        lemma_uint_strategy_monotonic(v as int);
        lemma_uint_strategy_stream_bounds(
            UintStrategyStream {
                v: v as i64,
                stage: if v == 0 {
                    3
                } else {
                    0
                },
                walk: if v as int > 0 {
                    (v - 1) as u64
                } else {
                    0
                },
            },
            i32::MAX as int,
        );
        assert forall|i: int| 0 <= i < self.cands(v).len() implies self.measure(
            #[trigger] self.cands(v)[i],
        ) < self.measure(v) by {
            let c = uint_strategy_cands(v as int)[i];
            assert(self.cands(v)[i] == c as i32);
            assert(abs(c) < abs(v as int));
            assert(-(i32::MAX as int) - 1 <= c <= i32::MAX as int);
            assert((c as i32) as int == c);
        }
    }

    fn shrink(&self, value: &i32) -> (it: UintStrategyCandidates<i32>)
        ensures
            it.wf(),
            it.remaining() == self.cands(value.deep_view()),
    {
        let it = UintStrategyCandidates {
            core: UintStrategyStream::start(*value as i64),
            _marker: PhantomData,
        };
        proof {
            assert(it.remaining() =~= self.cands(value.deep_view()));
        }
        it
    }
}

impl Candidates for UintStrategyCandidates<i64> {
    type Item = i64;

    open spec fn wf(&self) -> bool {
        &&& self.core.wf()
        &&& i64::MIN as int <= self.core.v as int <= i64::MAX as int
    }

    open spec fn remaining(&self) -> Seq<i64> {
        self.core.remaining_int().map_values(|c: int| c as i64)
    }

    fn next(&mut self) -> (r: Option<i64>)
        ensures
            final(self).wf(),
            match r {
                Option::Some(v) => old(self).remaining().len() > 0 && v.deep_view() == old(
                    self,
                ).remaining()[0] && final(self).remaining() == old(self).remaining().drop_first(),
                Option::None => old(self).remaining().len() == 0 && final(self).remaining() == old(
                    self,
                ).remaining(),
            },
    {
        proof {
            lemma_uint_strategy_stream_bounds(self.core, i64::MAX as int);
        }
        match self.core.next_i64() {
            Option::Some(c) => {
                proof {
                    assert(final(self).remaining() =~= old(self).remaining().drop_first());
                }
                Option::Some(c as i64)
            },
            Option::None => Option::None,
        }
    }
}

impl Shrink for UnsignedIntegerShrinker<i64> {
    type Item = i64;

    type Iter = UintStrategyCandidates<i64>;

    open spec fn cands(&self, v: i64) -> Seq<i64> {
        uint_strategy_cands(v as int).map_values(|c: int| c as i64)
    }

    open spec fn measure(&self, v: i64) -> nat {
        signed_measure(v as int) as nat
    }

    proof fn cands_decrease(&self, v: i64) {
        lemma_uint_strategy_monotonic(v as int);
        lemma_uint_strategy_stream_bounds(
            UintStrategyStream {
                v: v as i64,
                stage: if v == 0 {
                    3
                } else {
                    0
                },
                walk: if v as int > 0 {
                    (v - 1) as u64
                } else {
                    0
                },
            },
            i64::MAX as int,
        );
        assert forall|i: int| 0 <= i < self.cands(v).len() implies self.measure(
            #[trigger] self.cands(v)[i],
        ) < self.measure(v) by {
            let c = uint_strategy_cands(v as int)[i];
            assert(self.cands(v)[i] == c as i64);
            assert(abs(c) < abs(v as int));
            assert(-(i64::MAX as int) - 1 <= c <= i64::MAX as int);
            assert((c as i64) as int == c);
        }
    }

    fn shrink(&self, value: &i64) -> (it: UintStrategyCandidates<i64>)
        ensures
            it.wf(),
            it.remaining() == self.cands(value.deep_view()),
    {
        let it = UintStrategyCandidates {
            core: UintStrategyStream::start(*value as i64),
            _marker: PhantomData,
        };
        proof {
            assert(it.remaining() =~= self.cands(value.deep_view()));
        }
        it
    }
}

impl Candidates for UintStrategyCandidates<isize> {
    type Item = isize;

    open spec fn wf(&self) -> bool {
        &&& self.core.wf()
        &&& isize::MIN as int <= self.core.v as int <= isize::MAX as int
    }

    open spec fn remaining(&self) -> Seq<isize> {
        self.core.remaining_int().map_values(|c: int| c as isize)
    }

    fn next(&mut self) -> (r: Option<isize>)
        ensures
            final(self).wf(),
            match r {
                Option::Some(v) => old(self).remaining().len() > 0 && v.deep_view() == old(
                    self,
                ).remaining()[0] && final(self).remaining() == old(self).remaining().drop_first(),
                Option::None => old(self).remaining().len() == 0 && final(self).remaining() == old(
                    self,
                ).remaining(),
            },
    {
        proof {
            lemma_uint_strategy_stream_bounds(self.core, isize::MAX as int);
        }
        match self.core.next_i64() {
            Option::Some(c) => {
                proof {
                    assert(final(self).remaining() =~= old(self).remaining().drop_first());
                }
                Option::Some(c as isize)
            },
            Option::None => Option::None,
        }
    }
}

impl Shrink for UnsignedIntegerShrinker<isize> {
    type Item = isize;

    type Iter = UintStrategyCandidates<isize>;

    open spec fn cands(&self, v: isize) -> Seq<isize> {
        uint_strategy_cands(v as int).map_values(|c: int| c as isize)
    }

    open spec fn measure(&self, v: isize) -> nat {
        signed_measure(v as int) as nat
    }

    proof fn cands_decrease(&self, v: isize) {
        lemma_uint_strategy_monotonic(v as int);
        lemma_uint_strategy_stream_bounds(
            UintStrategyStream {
                v: v as i64,
                stage: if v == 0 {
                    3
                } else {
                    0
                },
                walk: if v as int > 0 {
                    (v - 1) as u64
                } else {
                    0
                },
            },
            isize::MAX as int,
        );
        assert forall|i: int| 0 <= i < self.cands(v).len() implies self.measure(
            #[trigger] self.cands(v)[i],
        ) < self.measure(v) by {
            let c = uint_strategy_cands(v as int)[i];
            assert(self.cands(v)[i] == c as isize);
            assert(abs(c) < abs(v as int));
            assert(-(isize::MAX as int) - 1 <= c <= isize::MAX as int);
            assert((c as isize) as int == c);
        }
    }

    fn shrink(&self, value: &isize) -> (it: UintStrategyCandidates<isize>)
        ensures
            it.wf(),
            it.remaining() == self.cands(value.deep_view()),
    {
        let it = UintStrategyCandidates {
            core: UintStrategyStream::start(*value as i64),
            _marker: PhantomData,
        };
        proof {
            assert(it.remaining() =~= self.cands(value.deep_view()));
        }
        it
    }
}

impl Shrink for () {
    type Item = ();

    type Iter = UpToOne<()>;

    open spec fn cands(&self, v: ()) -> Seq<()> {
        Seq::empty()
    }

    open spec fn measure(&self, v: ()) -> nat {
        0
    }

    proof fn cands_decrease(&self, v: ()) {
    }

    fn shrink(&self, value: &()) -> (it: UpToOne<()>)
        ensures
            it.wf(),
            it.remaining() == self.cands(value.deep_view()),
    {
        UpToOne { item: Option::None }
    }
}

/// A cursor over the candidates of a one-element bundle.
pub struct Tuple1Candidates<S1: Shrink> {
    pub it1: S1::Iter,
}

impl<S1: Shrink> Candidates for Tuple1Candidates<S1> {
    type Item = (S1::Item,);

    open spec fn wf(&self) -> bool {
        self.it1.wf()
    }

    open spec fn remaining(&self) -> Seq<(<S1::Item as DeepView>::V,)> {
        self.it1.remaining().map_values(|c: <S1::Item as DeepView>::V| (c,))
    }

    fn next(&mut self) -> (r: Option<(S1::Item,)>)
        ensures
            final(self).wf(),
            match r {
                Option::Some(v) => old(self).remaining().len() > 0 && v.deep_view() == old(
                    self,
                ).remaining()[0] && final(self).remaining() == old(self).remaining().drop_first(),
                Option::None => old(self).remaining().len() == 0 && final(self).remaining() == old(
                    self,
                ).remaining(),
            },
    {
        match self.it1.next() {
            Option::Some(c) => {
                proof {
                    assert(final(self).remaining() =~= old(self).remaining().drop_first());
                }
                Option::Some((c,))
            },
            Option::None => Option::None,
        }
    }
}

impl<S1: Shrink> Shrink for (S1,) {
    type Item = (S1::Item,);

    type Iter = Tuple1Candidates<S1>;

    open spec fn cands(&self, v: (<S1::Item as DeepView>::V,)) -> Seq<(<S1::Item as DeepView>::V,)> {
        self.0.cands(v.0).map_values(|c: <S1::Item as DeepView>::V| (c,))
    }

    open spec fn measure(&self, v: (<S1::Item as DeepView>::V,)) -> nat {
        self.0.measure(v.0)
    }

    proof fn cands_decrease(&self, v: (<S1::Item as DeepView>::V,)) {
        self.0.cands_decrease(v.0);
        assert forall|i: int| 0 <= i < self.cands(v).len() implies self.measure(
            #[trigger] self.cands(v)[i],
        ) < self.measure(v) by {
            assert(self.cands(v)[i] == (self.0.cands(v.0)[i],));
        }
    }

    fn shrink(&self, value: &(S1::Item,)) -> (it: Tuple1Candidates<S1>)
        ensures
            it.wf(),
            it.remaining() == self.cands(value.deep_view()),
    {
        let it = Tuple1Candidates { it1: self.0.shrink(&value.0) };
        proof {
            assert(it.remaining() =~= self.cands(value.deep_view()));
        }
        it
    }
}

/// A cursor over the candidates of a two-element bundle: each candidate
/// shrinks exactly one position and keeps the other fixed.
pub struct Tuple2Candidates<S1: Shrink, S2: Shrink> {
    pub a: S1::Item,
    pub b: S2::Item,
    pub it1: S1::Iter,
    pub it2: S2::Iter,
}

impl<S1: Shrink, S2: Shrink> Candidates for Tuple2Candidates<S1, S2> where
    S1::Item: Dup,
    S2::Item: Dup,
 {
    type Item = (S1::Item, S2::Item);

    open spec fn wf(&self) -> bool {
        self.it1.wf() && self.it2.wf()
    }

    open spec fn remaining(&self) -> Seq<(<S1::Item as DeepView>::V, <S2::Item as DeepView>::V)> {
        self.it1.remaining().map_values(
            |c: <S1::Item as DeepView>::V| (c, self.b.deep_view()),
        ) + self.it2.remaining().map_values(
            |c: <S2::Item as DeepView>::V| (self.a.deep_view(), c),
        )
    }

    fn next(&mut self) -> (r: Option<(S1::Item, S2::Item)>)
        ensures
            final(self).wf(),
            match r {
                Option::Some(v) => old(self).remaining().len() > 0 && v.deep_view() == old(
                    self,
                ).remaining()[0] && final(self).remaining() == old(self).remaining().drop_first(),
                Option::None => old(self).remaining().len() == 0 && final(self).remaining() == old(
                    self,
                ).remaining(),
            },
    {
        match self.it1.next() {
            Option::Some(c) => {
                proof {
                    assert(final(self).remaining() =~= old(self).remaining().drop_first());
                }
                return Option::Some((c, self.b.dup()));
            },
            Option::None => {},
        }
        match self.it2.next() {
            Option::Some(c) => {
                proof {
                    assert(final(self).remaining() =~= old(self).remaining().drop_first());
                }
                Option::Some((self.a.dup(), c))
            },
            Option::None => Option::None,
        }
    }
}

impl<S1: Shrink, S2: Shrink> Shrink for (S1, S2) where S1::Item: Dup, S2::Item: Dup {
    type Item = (S1::Item, S2::Item);

    type Iter = Tuple2Candidates<S1, S2>;

    open spec fn cands(&self, v: (<S1::Item as DeepView>::V, <S2::Item as DeepView>::V)) -> Seq<
        (<S1::Item as DeepView>::V, <S2::Item as DeepView>::V),
    > {
        self.0.cands(v.0).map_values(
            |c: <S1::Item as DeepView>::V| (c, v.1),
        ) + self.1.cands(v.1).map_values(|c: <S2::Item as DeepView>::V| (v.0, c))
    }

    open spec fn measure(&self, v: (<S1::Item as DeepView>::V, <S2::Item as DeepView>::V)) -> nat {
        self.0.measure(v.0) + self.1.measure(v.1)
    }

    proof fn cands_decrease(&self, v: (<S1::Item as DeepView>::V, <S2::Item as DeepView>::V)) {
        self.0.cands_decrease(v.0);
        self.1.cands_decrease(v.1);
        let n0 = self.0.cands(v.0).len() as int;
        assert forall|i: int| 0 <= i < self.cands(v).len() implies self.measure(
            #[trigger] self.cands(v)[i],
        ) < self.measure(v) by {
            if i < n0 {
                assert(self.cands(v)[i] == (self.0.cands(v.0)[i], v.1));
            } else {
                assert(self.cands(v)[i] == (v.0, self.1.cands(v.1)[i - n0]));
            }
        }
    }

    fn shrink(&self, value: &(S1::Item, S2::Item)) -> (it: Tuple2Candidates<S1, S2>)
        ensures
            it.wf(),
            it.remaining() == self.cands(value.deep_view()),
    {
        let it = Tuple2Candidates {
            a: value.0.dup(),
            b: value.1.dup(),
            it1: self.0.shrink(&value.0),
            it2: self.1.shrink(&value.1),
        };
        proof {
            assert(it.remaining() =~= self.cands(value.deep_view()));
        }
        it
    }
}

/// A cursor over the candidates of a three-element bundle: each candidate
/// shrinks exactly one position and keeps the others fixed.
pub struct Tuple3Candidates<S1: Shrink, S2: Shrink, S3: Shrink> {
    pub a: S1::Item,
    pub b: S2::Item,
    pub c: S3::Item,
    pub it1: S1::Iter,
    pub it2: S2::Iter,
    pub it3: S3::Iter,
}

impl<S1: Shrink, S2: Shrink, S3: Shrink> Candidates for Tuple3Candidates<S1, S2, S3> where
    S1::Item: Dup,
    S2::Item: Dup,
    S3::Item: Dup,
 {
    type Item = (S1::Item, S2::Item, S3::Item);

    open spec fn wf(&self) -> bool {
        self.it1.wf() && self.it2.wf() && self.it3.wf()
    }

    open spec fn remaining(&self) -> Seq<
        (<S1::Item as DeepView>::V, <S2::Item as DeepView>::V, <S3::Item as DeepView>::V),
    > {
        self.it1.remaining().map_values(
            |x: <S1::Item as DeepView>::V| (x, self.b.deep_view(), self.c.deep_view()),
        ) + self.it2.remaining().map_values(
            |x: <S2::Item as DeepView>::V| (self.a.deep_view(), x, self.c.deep_view()),
        ) + self.it3.remaining().map_values(
            |x: <S3::Item as DeepView>::V| (self.a.deep_view(), self.b.deep_view(), x),
        )
    }

    fn next(&mut self) -> (r: Option<(S1::Item, S2::Item, S3::Item)>)
        ensures
            final(self).wf(),
            match r {
                Option::Some(v) => old(self).remaining().len() > 0 && v.deep_view() == old(
                    self,
                ).remaining()[0] && final(self).remaining() == old(self).remaining().drop_first(),
                Option::None => old(self).remaining().len() == 0 && final(self).remaining() == old(
                    self,
                ).remaining(),
            },
    {
        match self.it1.next() {
            Option::Some(x) => {
                proof {
                    assert(final(self).remaining() =~= old(self).remaining().drop_first());
                }
                return Option::Some((x, self.b.dup(), self.c.dup()));
            },
            Option::None => {},
        }
        match self.it2.next() {
            Option::Some(x) => {
                proof {
                    assert(final(self).remaining() =~= old(self).remaining().drop_first());
                }
                return Option::Some((self.a.dup(), x, self.c.dup()));
            },
            Option::None => {},
        }
        match self.it3.next() {
            Option::Some(x) => {
                proof {
                    assert(final(self).remaining() =~= old(self).remaining().drop_first());
                }
                Option::Some((self.a.dup(), self.b.dup(), x))
            },
            Option::None => Option::None,
        }
    }
}

impl<S1: Shrink, S2: Shrink, S3: Shrink> Shrink for (S1, S2, S3) where
    S1::Item: Dup,
    S2::Item: Dup,
    S3::Item: Dup,
 {
    type Item = (S1::Item, S2::Item, S3::Item);

    type Iter = Tuple3Candidates<S1, S2, S3>;

    open spec fn cands(
        &self,
        v: (<S1::Item as DeepView>::V, <S2::Item as DeepView>::V, <S3::Item as DeepView>::V),
    ) -> Seq<(<S1::Item as DeepView>::V, <S2::Item as DeepView>::V, <S3::Item as DeepView>::V)> {
        self.0.cands(v.0).map_values(
            |x: <S1::Item as DeepView>::V| (x, v.1, v.2),
        ) + self.1.cands(v.1).map_values(
            |x: <S2::Item as DeepView>::V| (v.0, x, v.2),
        ) + self.2.cands(v.2).map_values(|x: <S3::Item as DeepView>::V| (v.0, v.1, x))
    }

    open spec fn measure(
        &self,
        v: (<S1::Item as DeepView>::V, <S2::Item as DeepView>::V, <S3::Item as DeepView>::V),
    ) -> nat {
        self.0.measure(v.0) + self.1.measure(v.1) + self.2.measure(v.2)
    }

    proof fn cands_decrease(
        &self,
        v: (<S1::Item as DeepView>::V, <S2::Item as DeepView>::V, <S3::Item as DeepView>::V),
    ) {
        self.0.cands_decrease(v.0);
        self.1.cands_decrease(v.1);
        self.2.cands_decrease(v.2);
        let n0 = self.0.cands(v.0).len() as int;
        let n1 = self.1.cands(v.1).len() as int;
        assert forall|i: int| 0 <= i < self.cands(v).len() implies self.measure(
            #[trigger] self.cands(v)[i],
        ) < self.measure(v) by {
            if i < n0 {
                assert(self.cands(v)[i] == (self.0.cands(v.0)[i], v.1, v.2));
            } else if i < n0 + n1 {
                assert(self.cands(v)[i] == (v.0, self.1.cands(v.1)[i - n0], v.2));
            } else {
                assert(self.cands(v)[i] == (v.0, v.1, self.2.cands(v.2)[i - n0 - n1]));
            }
        }
    }

    fn shrink(&self, value: &(S1::Item, S2::Item, S3::Item)) -> (it: Tuple3Candidates<S1, S2, S3>)
        ensures
            it.wf(),
            it.remaining() == self.cands(value.deep_view()),
    {
        let it = Tuple3Candidates {
            a: value.0.dup(),
            b: value.1.dup(),
            c: value.2.dup(),
            it1: self.0.shrink(&value.0),
            it2: self.1.shrink(&value.1),
            it3: self.2.shrink(&value.2),
        };
        proof {
            assert(it.remaining() =~= self.cands(value.deep_view()));
        }
        it
    }
}

} // verus!
