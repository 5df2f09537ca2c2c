//! The generation engine: size-parameterized random value production.
//!
//! A [`Generator`] produces one value from a [`GenerateCtx`], a pairing of a
//! mutable random source with a `size` budget that bounds the magnitude of
//! what is produced. A budget of zero always yields the smallest value of the
//! type without consulting randomness; when a collection recurses into its
//! elements the budget is halved, so nested structures stay bounded.

use vstd::prelude::*;
use core::marker::PhantomData;
use crate::random::RandomSource;

verus! {

/// A mutable random source together with the current size budget.
pub struct GenerateCtx {
    pub rng: RandomSource,
    pub size: usize,
}

impl GenerateCtx {
    /// Pairs a random source with a size budget.
    pub fn new(rng: RandomSource, size: usize) -> (r: GenerateCtx)
        ensures
            r.size == size,
            r.rng == rng,
    {
        GenerateCtx { rng, size }
    }

    /// Halves the size budget in place, as done when generation descends
    /// into the elements of a structure.
    pub fn chop(&mut self)
        ensures
            final(self).size == old(self).size / 2,
            final(self).rng == old(self).rng,
    {
        self.size = self.size / 2;
    }

    /// Draws a structural size (for instance a collection length) from the
    /// budget: zero stays zero without consulting randomness, the maximum
    /// sentinel means "unconstrained", and anything else is drawn uniformly
    /// from `[0, size]`.
    pub fn gen_size(&mut self) -> (r: usize)
        ensures
            final(self).size == old(self).size,
            old(self).size == 0 ==> r == 0 && final(self).rng == old(self).rng,
            old(self).size < usize::MAX ==> r <= old(self).size,
    {
        if self.size == 0 {
            0
        } else if self.size == usize::MAX {
            self.rng.any_usize()
        } else {
            self.rng.below_usize(self.size)
        }
    }
}

/// The capability of producing one random value per call, bounded by the
/// context's size budget.
pub trait Generator {
    type Output;

    /// What every produced value satisfies, given the budget it was drawn
    /// under.
    spec fn gen_ens(&self, size: nat, r: Self::Output) -> bool;

    /// Whether generation may consult randomness even under a zero budget.
    spec fn consumes_at_zero(&self) -> bool;

    /// Produces one value. The budget is left unchanged, and a generator
    /// that is deterministic at budget zero leaves the random source
    /// untouched there.
    fn generate(&self, ctx: &mut GenerateCtx) -> (r: Self::Output)
        ensures
            final(ctx).size == old(ctx).size,
            self.gen_ens(old(ctx).size as nat, r),
            old(ctx).size == 0 && !self.consumes_at_zero() ==> final(ctx).rng == old(
                ctx,
            ).rng,
    ;
}

/// A generator that ignores the context and always yields copies of one
/// fixed value.
pub struct Constant<T>(pub T);

impl<T: crate::dup::Dup> Generator for Constant<T> {
    type Output = T;

    open spec fn gen_ens(&self, size: nat, r: T) -> bool {
        r.deep_view() == self.0.deep_view()
    }

    open spec fn consumes_at_zero(&self) -> bool {
        false
    }

    fn generate(&self, ctx: &mut GenerateCtx) -> (r: T)
        ensures
            final(ctx).size == old(ctx).size,
            self.gen_ens(old(ctx).size as nat, r),
            final(ctx).rng == old(ctx).rng,
            old(ctx).size == 0 && !self.consumes_at_zero() ==> final(ctx).rng == old(
                ctx,
            ).rng,
    {
        self.0.dup()
    }
}

/// Generates signed integers centered on zero: a value of `[-size, size]`
/// when the budget fits the type, the type's full range when it does not,
/// and exactly zero under a zero budget.
pub struct IntegerGenerator<X>(PhantomData<X>);

impl<X> Clone for IntegerGenerator<X> {
    fn clone(&self) -> (r: Self)
        ensures
            r == *self,
    {
        IntegerGenerator(PhantomData)
    }
}

impl<X> Copy for IntegerGenerator<X> {

}

impl<X> IntegerGenerator<X> {
    pub fn new() -> Self {
        IntegerGenerator(PhantomData)
    }
}

/// What a signed draw satisfies for a type whose range is `[min, max]`.
pub open spec fn signed_gen_ok(size: nat, min: int, max: int, r: int) -> bool {
    if size == 0 {
        r == 0
    } else if size <= max {
        -(size as int) <= r <= size as int
    } else {
        min <= r <= max
    }
}

/// One signed draw for any type whose range sits inside `i64`.
fn gen_signed(rng: &mut RandomSource, size: usize, min: i64, max: i64) -> (r: i64)
    requires
        min < 0 < max,
        min == -max - 1 || min == -max,
    ensures
        signed_gen_ok(size as nat, min as int, max as int, r as int),
        size == 0 ==> *final(rng) == *old(rng),
{
    if size == 0 {
        0
    } else if size as u64 <= max as u64 {
        let s = size as i64;
        rng.range_i64(-s, s)
    } else {
        rng.range_i64(min, max)
    }
}

impl Generator for IntegerGenerator<i8> {
    type Output = i8;

    open spec fn gen_ens(&self, size: nat, r: i8) -> bool {
        signed_gen_ok(size, i8::MIN as int, i8::MAX as int, r as int)
    }

    open spec fn consumes_at_zero(&self) -> bool {
        false
    }

    fn generate(&self, ctx: &mut GenerateCtx) -> (r: i8)
        ensures
            final(ctx).size == old(ctx).size,
            self.gen_ens(old(ctx).size as nat, r),
            old(ctx).size == 0 && !self.consumes_at_zero() ==> final(ctx).rng == old(
                ctx,
            ).rng,
    {
        gen_signed(&mut ctx.rng, ctx.size, i8::MIN as i64, i8::MAX as i64) as i8
    }
}

impl Generator for IntegerGenerator<i16> {
    type Output = i16;

    open spec fn gen_ens(&self, size: nat, r: i16) -> bool {
        signed_gen_ok(size, i16::MIN as int, i16::MAX as int, r as int)
    }

    open spec fn consumes_at_zero(&self) -> bool {
        false
    }

    fn generate(&self, ctx: &mut GenerateCtx) -> (r: i16)
        ensures
            final(ctx).size == old(ctx).size,
            self.gen_ens(old(ctx).size as nat, r),
            old(ctx).size == 0 && !self.consumes_at_zero() ==> final(ctx).rng == old(
                ctx,
            ).rng,
    {
        gen_signed(&mut ctx.rng, ctx.size, i16::MIN as i64, i16::MAX as i64) as i16
    }
}

impl Generator for IntegerGenerator<i32> {
    type Output = i32;

    open spec fn gen_ens(&self, size: nat, r: i32) -> bool {
        signed_gen_ok(size, i32::MIN as int, i32::MAX as int, r as int)
    }

    open spec fn consumes_at_zero(&self) -> bool {
        false
    }

    fn generate(&self, ctx: &mut GenerateCtx) -> (r: i32)
        ensures
            final(ctx).size == old(ctx).size,
            self.gen_ens(old(ctx).size as nat, r),
            old(ctx).size == 0 && !self.consumes_at_zero() ==> final(ctx).rng == old(
                ctx,
            ).rng,
    {
        gen_signed(&mut ctx.rng, ctx.size, i32::MIN as i64, i32::MAX as i64) as i32
    }
}

impl Generator for IntegerGenerator<i64> {
    type Output = i64;

    open spec fn gen_ens(&self, size: nat, r: i64) -> bool {
        signed_gen_ok(size, i64::MIN as int, i64::MAX as int, r as int)
    }

    open spec fn consumes_at_zero(&self) -> bool {
        false
    }

    fn generate(&self, ctx: &mut GenerateCtx) -> (r: i64)
        ensures
            final(ctx).size == old(ctx).size,
            self.gen_ens(old(ctx).size as nat, r),
            old(ctx).size == 0 && !self.consumes_at_zero() ==> final(ctx).rng == old(
                ctx,
            ).rng,
    {
        gen_signed(&mut ctx.rng, ctx.size, i64::MIN, i64::MAX)
    }
}

impl Generator for IntegerGenerator<isize> {
    type Output = isize;

    open spec fn gen_ens(&self, size: nat, r: isize) -> bool {
        signed_gen_ok(size, isize::MIN as int, isize::MAX as int, r as int)
    }

    open spec fn consumes_at_zero(&self) -> bool {
        false
    }

    fn generate(&self, ctx: &mut GenerateCtx) -> (r: isize)
        ensures
            final(ctx).size == old(ctx).size,
            self.gen_ens(old(ctx).size as nat, r),
            old(ctx).size == 0 && !self.consumes_at_zero() ==> final(ctx).rng == old(
                ctx,
            ).rng,
    {
        gen_signed(&mut ctx.rng, ctx.size, isize::MIN as i64, isize::MAX as i64) as isize
    }
}

/// Generates non-negative integers: a value of `[0, size]` when the budget
/// fits the type, the type's non-negative range when it does not, and
/// exactly zero under a zero budget.
pub struct UnsignedIntegerGenerator<X>(PhantomData<X>);

impl<X> Clone for UnsignedIntegerGenerator<X> {
    fn clone(&self) -> (r: Self)
        ensures
            r == *self,
    {
        UnsignedIntegerGenerator(PhantomData)
    }
}

impl<X> Copy for UnsignedIntegerGenerator<X> {

}

impl<X> UnsignedIntegerGenerator<X> {
    pub fn new() -> Self {
        UnsignedIntegerGenerator(PhantomData)
    }
}

/// What a non-negative draw satisfies for a type whose values reach `max`.
pub open spec fn unsigned_gen_ok(size: nat, max: int, r: int) -> bool {
    if size == 0 {
        r == 0
    } else if size <= max {
        0 <= r <= size
    } else {
        0 <= r <= max
    }
}

/// One non-negative draw for any type whose non-negative range sits inside
/// `u64`.
fn gen_unsigned(rng: &mut RandomSource, size: usize, max: u64) -> (r: u64)
    requires
        max > 0,
    ensures
        unsigned_gen_ok(size as nat, max as int, r as int),
        size == 0 ==> *final(rng) == *old(rng),
{
    if size == 0 {
        0
    } else if size as u64 <= max {
        rng.range_u64(0, size as u64)
    } else {
        rng.range_u64(0, max)
    }
}

impl Generator for UnsignedIntegerGenerator<u8> {
    type Output = u8;

    open spec fn gen_ens(&self, size: nat, r: u8) -> bool {
        unsigned_gen_ok(size, u8::MAX as int, r as int)
    }

    open spec fn consumes_at_zero(&self) -> bool {
        false
    }

    fn generate(&self, ctx: &mut GenerateCtx) -> (r: u8)
        ensures
            final(ctx).size == old(ctx).size,
            self.gen_ens(old(ctx).size as nat, r),
            old(ctx).size == 0 && !self.consumes_at_zero() ==> final(ctx).rng == old(
                ctx,
            ).rng,
    {
        gen_unsigned(&mut ctx.rng, ctx.size, u8::MAX as u64) as u8
    }
}

impl Generator for UnsignedIntegerGenerator<u16> {
    type Output = u16;

    open spec fn gen_ens(&self, size: nat, r: u16) -> bool {
        unsigned_gen_ok(size, u16::MAX as int, r as int)
    }

    open spec fn consumes_at_zero(&self) -> bool {
        false
    }

    fn generate(&self, ctx: &mut GenerateCtx) -> (r: u16)
        ensures
            final(ctx).size == old(ctx).size,
            self.gen_ens(old(ctx).size as nat, r),
            old(ctx).size == 0 && !self.consumes_at_zero() ==> final(ctx).rng == old(
                ctx,
            ).rng,
    {
        gen_unsigned(&mut ctx.rng, ctx.size, u16::MAX as u64) as u16
    }
}

impl Generator for UnsignedIntegerGenerator<u32> {
    type Output = u32;

    open spec fn gen_ens(&self, size: nat, r: u32) -> bool {
        unsigned_gen_ok(size, u32::MAX as int, r as int)
    }

    open spec fn consumes_at_zero(&self) -> bool {
        false
    }

    fn generate(&self, ctx: &mut GenerateCtx) -> (r: u32)
        ensures
            final(ctx).size == old(ctx).size,
            self.gen_ens(old(ctx).size as nat, r),
            old(ctx).size == 0 && !self.consumes_at_zero() ==> final(ctx).rng == old(
                ctx,
            ).rng,
    {
        gen_unsigned(&mut ctx.rng, ctx.size, u32::MAX as u64) as u32
    }
}

impl Generator for UnsignedIntegerGenerator<u64> {
    type Output = u64;

    open spec fn gen_ens(&self, size: nat, r: u64) -> bool {
        unsigned_gen_ok(size, u64::MAX as int, r as int)
    }

    open spec fn consumes_at_zero(&self) -> bool {
        false
    }

    fn generate(&self, ctx: &mut GenerateCtx) -> (r: u64)
        ensures
            final(ctx).size == old(ctx).size,
            self.gen_ens(old(ctx).size as nat, r),
            old(ctx).size == 0 && !self.consumes_at_zero() ==> final(ctx).rng == old(
                ctx,
            ).rng,
    {
        gen_unsigned(&mut ctx.rng, ctx.size, u64::MAX)
    }
}

impl Generator for UnsignedIntegerGenerator<usize> {
    type Output = usize;

    open spec fn gen_ens(&self, size: nat, r: usize) -> bool {
        unsigned_gen_ok(size, usize::MAX as int, r as int)
    }

    open spec fn consumes_at_zero(&self) -> bool {
        false
    }

    fn generate(&self, ctx: &mut GenerateCtx) -> (r: usize)
        ensures
            final(ctx).size == old(ctx).size,
            self.gen_ens(old(ctx).size as nat, r),
            old(ctx).size == 0 && !self.consumes_at_zero() ==> final(ctx).rng == old(
                ctx,
            ).rng,
    {
        if ctx.size == 0 {
            0
        } else {
            ctx.rng.below_usize(ctx.size)
        }
    }
}

impl Generator for UnsignedIntegerGenerator<i8> {
    type Output = i8;

    open spec fn gen_ens(&self, size: nat, r: i8) -> bool {
        unsigned_gen_ok(size, i8::MAX as int, r as int)
    }

    open spec fn consumes_at_zero(&self) -> bool {
        false
    }

    fn generate(&self, ctx: &mut GenerateCtx) -> (r: i8)
        ensures
            final(ctx).size == old(ctx).size,
            self.gen_ens(old(ctx).size as nat, r),
            old(ctx).size == 0 && !self.consumes_at_zero() ==> final(ctx).rng == old(
                ctx,
            ).rng,
    {
        gen_unsigned(&mut ctx.rng, ctx.size, i8::MAX as u64) as i8
    }
}

impl Generator for UnsignedIntegerGenerator<i16> {
    type Output = i16;

    open spec fn gen_ens(&self, size: nat, r: i16) -> bool {
        unsigned_gen_ok(size, i16::MAX as int, r as int)
    }

    open spec fn consumes_at_zero(&self) -> bool {
        false
    }

    fn generate(&self, ctx: &mut GenerateCtx) -> (r: i16)
        ensures
            final(ctx).size == old(ctx).size,
            self.gen_ens(old(ctx).size as nat, r),
            old(ctx).size == 0 && !self.consumes_at_zero() ==> final(ctx).rng == old(
                ctx,
            ).rng,
    {
        gen_unsigned(&mut ctx.rng, ctx.size, i16::MAX as u64) as i16
    }
}

impl Generator for UnsignedIntegerGenerator<i32> {
    type Output = i32;

    open spec fn gen_ens(&self, size: nat, r: i32) -> bool {
        unsigned_gen_ok(size, i32::MAX as int, r as int)
    }

    open spec fn consumes_at_zero(&self) -> bool {
        false
    }

    fn generate(&self, ctx: &mut GenerateCtx) -> (r: i32)
        ensures
            final(ctx).size == old(ctx).size,
            self.gen_ens(old(ctx).size as nat, r),
            old(ctx).size == 0 && !self.consumes_at_zero() ==> final(ctx).rng == old(
                ctx,
            ).rng,
    {
        gen_unsigned(&mut ctx.rng, ctx.size, i32::MAX as u64) as i32
    }
}

impl Generator for UnsignedIntegerGenerator<i64> {
    type Output = i64;

    open spec fn gen_ens(&self, size: nat, r: i64) -> bool {
        unsigned_gen_ok(size, i64::MAX as int, r as int)
    }

    open spec fn consumes_at_zero(&self) -> bool {
        false
    }

    fn generate(&self, ctx: &mut GenerateCtx) -> (r: i64)
        ensures
            final(ctx).size == old(ctx).size,
            self.gen_ens(old(ctx).size as nat, r),
            old(ctx).size == 0 && !self.consumes_at_zero() ==> final(ctx).rng == old(
                ctx,
            ).rng,
    {
        gen_unsigned(&mut ctx.rng, ctx.size, i64::MAX as u64) as i64
    }
}

impl Generator for UnsignedIntegerGenerator<isize> {
    type Output = isize;

    open spec fn gen_ens(&self, size: nat, r: isize) -> bool {
        unsigned_gen_ok(size, isize::MAX as int, r as int)
    }

    open spec fn consumes_at_zero(&self) -> bool {
        false
    }

    fn generate(&self, ctx: &mut GenerateCtx) -> (r: isize)
        ensures
            final(ctx).size == old(ctx).size,
            self.gen_ens(old(ctx).size as nat, r),
            old(ctx).size == 0 && !self.consumes_at_zero() ==> final(ctx).rng == old(
                ctx,
            ).rng,
    {
        gen_unsigned(&mut ctx.rng, ctx.size, isize::MAX as u64) as isize
    }
}

/// Generates a collection by drawing a length from the budget and then
/// drawing that many elements under a halved budget.
pub struct FromIteratorGenerator<C, G> {
    pub generator: G,
    pub _marker: PhantomData<C>,
}

impl<C, G: Copy> Clone for FromIteratorGenerator<C, G> {
    fn clone(&self) -> (r: Self)
        ensures
            r == *self,
    {
        FromIteratorGenerator { generator: self.generator, _marker: PhantomData }
    }
}

impl<C, G: Copy> Copy for FromIteratorGenerator<C, G> {

}

impl<C, G> FromIteratorGenerator<C, G> {
    pub fn new(generator: G) -> (r: Self)
        ensures
            r.generator == generator,
    {
        FromIteratorGenerator { generator, _marker: PhantomData }
    }
}

impl<G: Generator> Generator for FromIteratorGenerator<Vec<G::Output>, G> {
    type Output = Vec<G::Output>;

    open spec fn gen_ens(&self, size: nat, r: Vec<G::Output>) -> bool {
        &&& size == 0 ==> r@.len() == 0
        &&& size < usize::MAX ==> r@.len() <= size
        &&& forall|i: int|
            0 <= i < r@.len() ==> self.generator.gen_ens((size / 2) as nat, #[trigger] r@[i])
    }

    open spec fn consumes_at_zero(&self) -> bool {
        false
    }

    fn generate(&self, ctx: &mut GenerateCtx) -> (r: Vec<G::Output>)
        ensures
            final(ctx).size == old(ctx).size,
            self.gen_ens(old(ctx).size as nat, r),
            old(ctx).size == 0 && !self.consumes_at_zero() ==> final(ctx).rng == old(
                ctx,
            ).rng,
    {
        let n = ctx.gen_size();
        let full = ctx.size;
        ctx.chop();
        let mut out: Vec<G::Output> = Vec::new();
        let mut i: usize = 0;
        while i < n
            invariant
                i <= n,
                out@.len() == i,
                ctx.size == full / 2,
                full == 0 ==> ctx.rng == old(ctx).rng,
                full == 0 ==> n == 0,
                forall|j: int|
                    0 <= j < out@.len() ==> self.generator.gen_ens(
                        (full / 2) as nat,
                        #[trigger] out@[j],
                    ),
            decreases n - i,
        {
            out.push(self.generator.generate(ctx));
            i += 1;
        }
        ctx.size = full;
        out
    }
}

/// Generates an optional value: a coin flip decides between absence and a
/// value of the inner generator.
pub struct OptionGenerator<G> {
    pub generator: G,
}

impl<G: Copy> Clone for OptionGenerator<G> {
    fn clone(&self) -> (r: Self)
        ensures
            r == *self,
    {
        OptionGenerator { generator: self.generator }
    }
}

impl<G: Copy> Copy for OptionGenerator<G> {

}

impl<G> OptionGenerator<G> {
    pub fn new(generator: G) -> (r: Self)
        ensures
            r.generator == generator,
    {
        OptionGenerator { generator }
    }
}

impl<G: Generator> Generator for OptionGenerator<G> {
    type Output = Option<G::Output>;

    open spec fn gen_ens(&self, size: nat, r: Option<G::Output>) -> bool {
        match r {
            Option::Some(v) => self.generator.gen_ens(size, v),
            Option::None => true,
        }
    }

    open spec fn consumes_at_zero(&self) -> bool {
        true
    }

    fn generate(&self, ctx: &mut GenerateCtx) -> (r: Option<G::Output>)
        ensures
            final(ctx).size == old(ctx).size,
            self.gen_ens(old(ctx).size as nat, r),
            old(ctx).size == 0 && !self.consumes_at_zero() ==> final(ctx).rng == old(
                ctx,
            ).rng,
    {
        if ctx.rng.any_bool() {
            Option::Some(self.generator.generate(ctx))
        } else {
            Option::None
        }
    }
}

/// Generates a two-variant outcome: a coin flip decides the variant, and the
/// matching inner generator supplies its value.
pub struct ResultGenerator<GOk, GErr> {
    pub g_ok: GOk,
    pub g_err: GErr,
}

impl<GOk: Copy, GErr: Copy> Clone for ResultGenerator<GOk, GErr> {
    fn clone(&self) -> (r: Self)
        ensures
            r == *self,
    {
        ResultGenerator { g_ok: self.g_ok, g_err: self.g_err }
    }
}

impl<GOk: Copy, GErr: Copy> Copy for ResultGenerator<GOk, GErr> {

}

impl<GOk, GErr> ResultGenerator<GOk, GErr> {
    pub fn new(g_ok: GOk, g_err: GErr) -> (r: Self)
        ensures
            r.g_ok == g_ok,
            r.g_err == g_err,
    {
        ResultGenerator { g_ok, g_err }
    }
}

impl<GOk: Generator, GErr: Generator> Generator for ResultGenerator<GOk, GErr> {
    type Output = Result<GOk::Output, GErr::Output>;

    open spec fn gen_ens(&self, size: nat, r: Result<GOk::Output, GErr::Output>) -> bool {
        match r {
            Result::Ok(v) => self.g_ok.gen_ens(size, v),
            Result::Err(e) => self.g_err.gen_ens(size, e),
        }
    }

    open spec fn consumes_at_zero(&self) -> bool {
        true
    }

    fn generate(&self, ctx: &mut GenerateCtx) -> (r: Result<GOk::Output, GErr::Output>)
        ensures
            final(ctx).size == old(ctx).size,
            self.gen_ens(old(ctx).size as nat, r),
            old(ctx).size == 0 && !self.consumes_at_zero() ==> final(ctx).rng == old(
                ctx,
            ).rng,
    {
        if ctx.rng.any_bool() {
            Result::Ok(self.g_ok.generate(ctx))
        } else {
            Result::Err(self.g_err.generate(ctx))
        }
    }
}

/// Generates a value uniformly from a type's whole domain, ignoring the size
/// budget.
pub struct RandGenerator<T>(PhantomData<T>);

impl<T> Clone for RandGenerator<T> {
    fn clone(&self) -> (r: Self)
        ensures
            r == *self,
    {
        RandGenerator(PhantomData)
    }
}

impl<T> Copy for RandGenerator<T> {

}

impl<T> RandGenerator<T> {
    pub fn new() -> Self {
        RandGenerator(PhantomData)
    }
}

impl Generator for RandGenerator<bool> {
    type Output = bool;

    open spec fn gen_ens(&self, size: nat, r: bool) -> bool {
        true
    }

    open spec fn consumes_at_zero(&self) -> bool {
        true
    }

    fn generate(&self, ctx: &mut GenerateCtx) -> (r: bool)
        ensures
            final(ctx).size == old(ctx).size,
            self.gen_ens(old(ctx).size as nat, r),
            old(ctx).size == 0 && !self.consumes_at_zero() ==> final(ctx).rng == old(
                ctx,
            ).rng,
    {
        ctx.rng.any_bool()
    }
}

impl Generator for RandGenerator<char> {
    type Output = char;

    open spec fn gen_ens(&self, size: nat, r: char) -> bool {
        true
    }

    open spec fn consumes_at_zero(&self) -> bool {
        true
    }

    fn generate(&self, ctx: &mut GenerateCtx) -> (r: char)
        ensures
            final(ctx).size == old(ctx).size,
            self.gen_ens(old(ctx).size as nat, r),
            old(ctx).size == 0 && !self.consumes_at_zero() ==> final(ctx).rng == old(
                ctx,
            ).rng,
    {
        ctx.rng.any_char()
    }
}

impl Generator for () {
    type Output = ();

    open spec fn gen_ens(&self, size: nat, r: ()) -> bool {
        true
    }

    open spec fn consumes_at_zero(&self) -> bool {
        false
    }

    fn generate(&self, ctx: &mut GenerateCtx) -> (r: ())
        ensures
            final(ctx).size == old(ctx).size,
            self.gen_ens(old(ctx).size as nat, r),
            old(ctx).size == 0 && !self.consumes_at_zero() ==> final(ctx).rng == old(
                ctx,
            ).rng,
    {
    }
}

impl<A: Generator> Generator for (A,) {
    type Output = (A::Output,);

    open spec fn gen_ens(&self, size: nat, r: (A::Output,)) -> bool {
        self.0.gen_ens(size, r.0)
    }

    open spec fn consumes_at_zero(&self) -> bool {
        self.0.consumes_at_zero()
    }

    fn generate(&self, ctx: &mut GenerateCtx) -> (r: (A::Output,))
        ensures
            final(ctx).size == old(ctx).size,
            self.gen_ens(old(ctx).size as nat, r),
            old(ctx).size == 0 && !self.consumes_at_zero() ==> final(ctx).rng == old(
                ctx,
            ).rng,
    {
        (self.0.generate(ctx),)
    }
}

impl<A: Generator, B: Generator> Generator for (A, B) {
    type Output = (A::Output, B::Output);

    open spec fn gen_ens(&self, size: nat, r: (A::Output, B::Output)) -> bool {
        self.0.gen_ens(size, r.0) && self.1.gen_ens(size, r.1)
    }

    open spec fn consumes_at_zero(&self) -> bool {
        self.0.consumes_at_zero() || self.1.consumes_at_zero()
    }

    fn generate(&self, ctx: &mut GenerateCtx) -> (r: (A::Output, B::Output))
        ensures
            final(ctx).size == old(ctx).size,
            self.gen_ens(old(ctx).size as nat, r),
            old(ctx).size == 0 && !self.consumes_at_zero() ==> final(ctx).rng == old(
                ctx,
            ).rng,
    {
        let a = self.0.generate(ctx);
        let b = self.1.generate(ctx);
        (a, b)
    }
}

impl<A: Generator, B: Generator, C: Generator> Generator for (A, B, C) {
    type Output = (A::Output, B::Output, C::Output);

    open spec fn gen_ens(&self, size: nat, r: (A::Output, B::Output, C::Output)) -> bool {
        self.0.gen_ens(size, r.0) && self.1.gen_ens(size, r.1) && self.2.gen_ens(size, r.2)
    }

    open spec fn consumes_at_zero(&self) -> bool {
        self.0.consumes_at_zero() || self.1.consumes_at_zero() || self.2.consumes_at_zero()
    }

    fn generate(&self, ctx: &mut GenerateCtx) -> (r: (A::Output, B::Output, C::Output))
        ensures
            final(ctx).size == old(ctx).size,
            self.gen_ens(old(ctx).size as nat, r),
            old(ctx).size == 0 && !self.consumes_at_zero() ==> final(ctx).rng == old(
                ctx,
            ).rng,
    {
        let a = self.0.generate(ctx);
        let b = self.1.generate(ctx);
        let c = self.2.generate(ctx);
        (a, b, c)
    }
}

} // verus!
