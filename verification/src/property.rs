//! The property binding: generator, shrinker and predicate bound into one
//! testable unit.
//!
//! A [`ForAllProperty`] couples a generator, a shrinker and a predicate.
//! One trial generates a root input, evaluates the predicate on it, and
//! hands the runner a lazy tree of verdicts ([`VerdictRose`]): every child
//! is a shrink candidate of its parent's input, and the predicate is
//! evaluated once per node, at the moment the search visits it. Conditional
//! properties ([`When`]) evaluate their precondition first, on a copy of
//! the arguments, and discard the trial when it rejects.

use vstd::prelude::*;
use core::marker::PhantomData;
use std::rc::Rc;
use crate::dup::share_rc;
use crate::arbitrary::Arbitrary;
use crate::call::MyCall;
use crate::dup::{Dup, Share};
use crate::generate::{GenerateCtx, Generator};
use crate::quick_fn::{QuickFn, StatusFn};
use crate::rose::{KidsCursor, RoseTrait};
use crate::shrink::{Candidates, Empty, Shrink};
use crate::testable::{Render, Testable, TestResult, TestStatus};

verus! {

/// Whether a predicate accepts every argument bundle, which a property
/// needs so that shrink candidates can be evaluated too.
pub open spec fn pred_total<Args: DeepView, F: QuickFn<Args>>(f: F) -> bool {
    forall|av: <Args as DeepView>::V| f.pre(av)
}

/// A node of the verdict tree: one evaluated input, its verdict, and the
/// recipe for its children — the shrink candidates of the input, each
/// evaluated only when visited.
pub struct VerdictRose<Args, S, F> {
    pub result: TestResult,
    pub value: Args,
    pub shrinker: S,
    pub f: F,
}

impl<Args, S, F> VerdictRose<Args, S, F> where
    Args: DeepView + Dup + Render,
    S: Shrink<Item = Args> + Share,
    F: QuickFn<Args, Output = TestStatus> + Share,
 {
    /// Evaluates the predicate on one input and roots a verdict tree there.
    pub fn root(value: Args, shrinker: S, f: F) -> (r: Self)
        requires
            pred_total::<Args, F>(f),
        ensures
            r.value == value,
            r.shrinker == shrinker,
            r.f == f,
            f.post(value.deep_view(), r.result.status),
    {
        let input = value.render();
        let status = f.call(value.dup());
        VerdictRose { result: TestResult { input, status }, value, shrinker, f }
    }
}

/// The cursor over a verdict node's children: each shrink candidate of the
/// node's input becomes a child verdict node the moment it is asked for.
#[verifier::reject_recursive_types(Args)]
pub struct VerdictKids<Args, S: Shrink<Item = Args>, F> where Args: DeepView {
    pub inner: S::Iter,
    pub shrinker: S,
    pub f: F,
    pub limit: Ghost<nat>,
}

impl<Args, S, F> RoseTrait<TestResult> for VerdictRose<Args, S, F> where
    Args: DeepView + Dup + Render,
    S: Shrink<Item = Args> + Share,
    F: QuickFn<Args, Output = TestStatus> + Share,
 {
    type Kids = VerdictKids<Args, S, F>;

    open spec fn val(&self) -> crate::testable::TestResultView {
        self.result.deep_view()
    }

    open spec fn wf(&self) -> bool {
        pred_total::<Args, F>(self.f)
    }

    open spec fn height(&self) -> nat {
        self.shrinker.measure(self.value.deep_view())
    }

    open spec fn degree(&self) -> nat {
        self.shrinker.cands(self.value.deep_view()).len()
    }

    fn value(&self) -> (r: &TestResult)
        ensures
            r.deep_view() == self.val(),
    {
        &self.result
    }

    fn into_value(self) -> (r: TestResult)
        ensures
            r.deep_view() == self.val(),
    {
        self.result
    }

    fn iterator(&self) -> (it: Self::Kids)
        ensures
            it.wf(),
            it.bound() <= self.height(),
            it.fuel() == self.degree(),
            it.f == self.f,
            it.shrinker == self.shrinker,
            it.inner.remaining() == self.shrinker.cands(self.value.deep_view()),
    {
        proof {
            self.shrinker.cands_decrease(self.value.deep_view());
        }
        VerdictKids {
            inner: self.shrinker.shrink(&self.value),
            shrinker: self.shrinker.share(),
            f: self.f.share(),
            limit: Ghost(self.shrinker.measure(self.value.deep_view())),
        }
    }

    proof fn child_wf(n: Self) {
    }

    proof fn child_height(n: Self) {
    }
}

impl<Args, S, F> KidsCursor<TestResult> for VerdictKids<Args, S, F> where
    Args: DeepView + Dup + Render,
    S: Shrink<Item = Args> + Share,
    F: QuickFn<Args, Output = TestStatus> + Share,
 {
    type Node = VerdictRose<Args, S, F>;

    open spec fn wf(&self) -> bool {
        &&& self.inner.wf()
        &&& pred_total::<Args, F>(self.f)
        &&& forall|i: int|
            0 <= i < self.inner.remaining().len() ==> self.shrinker.measure(
                #[trigger] self.inner.remaining()[i],
            ) < self.limit@
    }

    open spec fn node_wf(n: VerdictRose<Args, S, F>) -> bool {
        pred_total::<Args, F>(n.f)
    }

    open spec fn fuel(&self) -> nat {
        self.inner.remaining().len()
    }

    open spec fn node_measure(n: VerdictRose<Args, S, F>) -> nat {
        n.shrinker.measure(n.value.deep_view())
    }

    open spec fn bound(&self) -> nat {
        self.limit@
    }

    fn next(&mut self) -> (r: Option<VerdictRose<Args, S, F>>)
        ensures
            final(self).wf(),
            final(self).bound() == old(self).bound(),
            r matches Option::Some(n) ==> Self::node_wf(n) && final(self).fuel() + 1 == old(
                self,
            ).fuel() && Self::node_measure(n) < old(self).bound(),
            r is None ==> old(self).fuel() == 0,
            final(self).f == old(self).f,
            final(self).shrinker == old(self).shrinker,
            match r {
                Option::Some(n) => old(self).inner.remaining().len() > 0 && n.value.deep_view()
                    == old(self).inner.remaining()[0] && final(self).inner.remaining() == old(self).inner.remaining().drop_first() && n.f == old(self).f && n.shrinker == old(self).shrinker && old(self).f.post(n.value.deep_view(), n.result.status),
                Option::None => old(self).inner.remaining().len() == 0 && final(self).inner.remaining() == old(self).inner.remaining(),
            },
    {
        match self.inner.next() {
            Option::Some(c) => {
                let n = VerdictRose::root(c, self.shrinker.share(), self.f.share());
                Option::Some(n)
            },
            Option::None => Option::None,
        }
    }
}

/// A property over argument bundles of type `Args`: a generator, a
/// shrinker, and a predicate.
pub struct ForAllProperty<Args, G, S, F> {
    pub generator: G,
    pub shrinker: S,
    pub f: F,
    pub _marker: PhantomData<Args>,
}

impl<Args, G, S, F> Testable for ForAllProperty<Args, G, S, F> where
    Args: DeepView + Dup + Render,
    G: Generator<Output = Args>,
    S: Shrink<Item = Args> + Share,
    F: QuickFn<Args, Output = TestStatus> + Share,
 {
    type Rose = VerdictRose<Args, S, F>;

    open spec fn expected_fail(&self) -> bool {
        false
    }

    open spec fn twf(&self) -> bool {
        pred_total::<Args, F>(self.f)
    }

    open spec fn may_verdict(&self, s: TestStatus) -> bool {
        exists|av: <Args as DeepView>::V| self.f.post(av, s)
    }

    fn test(&self, ctx: &mut GenerateCtx) -> (r: Self::Rose)
        ensures
            r.wf(),
            final(ctx).size == old(ctx).size,
            r.f == self.f,
            r.shrinker == self.shrinker,
            self.generator.gen_ens(old(ctx).size as nat, r.value),
            self.f.post(r.value.deep_view(), r.result.status),
            self.may_verdict(r.val().status),
    {
        let args = self.generator.generate(ctx);
        let r = VerdictRose::root(args, self.shrinker.share(), self.f.share());
        proof {
            assert(self.f.post(r.value.deep_view(), r.result.status));
        }
        r
    }

    fn is_expected_to_fail(&self) -> (r: bool)
        ensures
            r == self.expected_fail(),
    {
        false
    }
}

/// A totality introduction for whole properties: a property whose
/// predicate accepts every bundle is well formed, which is what the runner
/// asks of it.
pub proof fn lemma_property_total<Args, G, S, F>(p: ForAllProperty<Args, G, S, F>) where
    Args: DeepView + Dup + Render,
    G: Generator<Output = Args>,
    S: Shrink<Item = Args> + Share,
    F: QuickFn<Args, Output = TestStatus> + Share,

    requires
        pred_total::<Args, F>(p.f),
    ensures
        p.twf(),
        !p.expected_fail(),
        forall|s: TestStatus| #[trigger] p.may_verdict(s) == exists|av: <Args as DeepView>::V|
            p.f.post(av, s),
{
}

/// A generator and a shrinker, waiting for a predicate.
pub struct ForAll<Args, G, S> {
    pub generator: G,
    pub shrinker: S,
    pub _marker: PhantomData<Args>,
}

impl<Args, G, S> ForAll<Args, G, S> {
    /// Binds a predicate, completing the property.
    pub fn property<F>(self, f: F) -> (r: ForAllProperty<
        Args,
        G,
        S,
        StatusFn<MyCall<F, Args>>,
    >) where StatusFn<MyCall<F, Args>>: QuickFn<Args>, Args: DeepView
        ensures
            r.generator == self.generator,
            r.shrinker == self.shrinker,
            *r.f.0.f == f,
    {
        ForAllProperty {
            generator: self.generator,
            shrinker: self.shrinker,
            f: StatusFn(MyCall { f: Rc::new(f), _marker: PhantomData }),
            _marker: PhantomData,
        }
    }
}

/// The entry point for building properties over `Args`.
pub struct Property<Args> {
    pub _marker: PhantomData<Args>,
}

impl<Args: Arbitrary> Property<Args> {
    /// A property using the type's default generator and shrinker.
    pub fn new<F>(f: F) -> (r: ForAllProperty<
        Args,
        Args::Generator,
        Args::Shrink,
        StatusFn<MyCall<F, Args>>,
    >) where StatusFn<MyCall<F, Args>>: QuickFn<Args>
        ensures
            *r.f.0.f == f,
    {
        Property::<Args>::for_all_shrink(Args::arbitrary(), Args::shrink()).property(f)
    }

    /// A property with an explicit generator and no shrinking.
    pub fn for_all<G: Generator<Output = Args>>(g: G) -> (r: ForAll<Args, G, Empty<Args>>)
        ensures
            r.generator == g,
    {
        Property::<Args>::for_all_shrink(g, Empty::empty())
    }

    /// A property with an explicit generator and an explicit shrinker.
    pub fn for_all_shrink<G: Generator<Output = Args>, S: Shrink<Item = Args>>(g: G, s: S) -> (r:
        ForAll<Args, G, S>)
        ensures
            r.generator == g,
            r.shrinker == s,
    {
        ForAll { generator: g, shrinker: s, _marker: PhantomData }
    }

    /// A conditional property: the predicate `p` must accept the arguments
    /// before the body is consulted; rejected arguments discard the trial.
    pub fn when<P>(p: P) -> (r: When<Args, P>)
        ensures
            r.predicate == p,
    {
        When { predicate: p, _marker: PhantomData }
    }
}

/// A precondition, waiting for the property's body.
pub struct When<Args, P> {
    pub predicate: P,
    pub _marker: PhantomData<Args>,
}

impl<Args: Arbitrary, P> When<Args, P> {
    /// Binds the body. The resulting property generates with the type's
    /// default generator and does not shrink: a discarded input must report
    /// no further candidates.
    pub fn property<F>(self, f: F) -> (r: ForAllProperty<
        Args,
        Args::Generator,
        Empty<Args>,
        WhenFn<Args, P, StatusFn<MyCall<F, Args>>>,
    >) where WhenFn<Args, P, StatusFn<MyCall<F, Args>>>: QuickFn<Args, Output = TestStatus>
        ensures
            *r.f.predicate == self.predicate,
            *r.f.f.0.f == f,
    {
        ForAllProperty {
            generator: Args::arbitrary(),
            shrinker: Empty::empty(),
            f: WhenFn {
                predicate: Rc::new(self.predicate),
                f: StatusFn(MyCall { f: Rc::new(f), _marker: PhantomData }),
                _marker: PhantomData,
            },
            _marker: PhantomData,
        }
    }
}

/// A predicate gated by a precondition: rejected arguments yield a
/// `Discard` verdict, accepted ones the verdict of the body's outcome.
pub struct WhenFn<Args, P, F> {
    pub predicate: Rc<P>,
    pub f: F,
    pub _marker: PhantomData<Args>,
}

impl<Args, P, F: Share> Share for WhenFn<Args, P, F> {
    fn share(&self) -> (r: Self)
        ensures
            r == *self,
    {
        WhenFn { predicate: share_rc(&self.predicate), f: self.f.share(), _marker: PhantomData }
    }
}

impl<P: Fn() -> bool, G: QuickFn<(), Output = TestStatus>> QuickFn<()> for WhenFn<(), P, G> {
    type Output = TestStatus;

    open spec fn pre(&self, av: ()) -> bool {
        call_requires(*self.predicate, ()) && self.f.pre(av)
    }

    open spec fn post(&self, av: (), r: TestStatus) -> bool {
        exists|b: bool|
            #[trigger] call_ensures(*self.predicate, (), b) && (if b {
                self.f.post(av, r)
            } else {
                r == TestStatus::Discard
            })
    }

    fn call(&self, args: ()) -> (r: TestStatus)
        ensures
            self.post(args.deep_view(), r),
    {
        let ok = (&*self.predicate)();
        let ghost okg = ok;
        if ok {
            let r = self.f.call(args);
            proof {
                assert(call_ensures(*self.predicate, (), okg));
            }
            r
        } else {
            proof {
                assert(call_ensures(*self.predicate, (), okg));
            }
            TestStatus::Discard
        }
    }
}

impl<A: DeepView + Dup, P: Fn(A) -> bool, G: QuickFn<(A,), Output = TestStatus>> QuickFn<
    (A,),
> for WhenFn<(A,), P, G> {
    type Output = TestStatus;

    open spec fn pre(&self, av: (<A as DeepView>::V,)) -> bool {
        &&& forall|x: A| x.deep_view() == av.0 ==> #[trigger] call_requires(*self.predicate, (x,))
        &&& self.f.pre(av)
    }

    open spec fn post(&self, av: (<A as DeepView>::V,), r: TestStatus) -> bool {
        exists|x: A, b: bool|
            x.deep_view() == av.0 && #[trigger] call_ensures(*self.predicate, (x,), b) && (if b {
                self.f.post(av, r)
            } else {
                r == TestStatus::Discard
            })
    }

    fn call(&self, args: (A,)) -> (r: TestStatus)
        ensures
            self.post(args.deep_view(), r),
    {
        proof {
            assert(args.0.deep_view() == args.deep_view().0);
        }
        let probe = args.0.dup();
        let ghost pg = probe;
        let ok = (&*self.predicate)(probe);
        let ghost okg = ok;
        if ok {
            let r = self.f.call(args);
            proof {
                assert(pg.deep_view() == args.deep_view().0 && call_ensures(
                    *self.predicate,
                    (pg,),
                    okg,
                ));
            }
            r
        } else {
            proof {
                assert(pg.deep_view() == args.deep_view().0 && call_ensures(
                    *self.predicate,
                    (pg,),
                    okg,
                ));
            }
            TestStatus::Discard
        }
    }
}

impl<
    A: DeepView + Dup,
    B: DeepView + Dup,
    P: Fn(A, B) -> bool,
    G: QuickFn<(A, B), Output = TestStatus>,
> QuickFn<(A, B)> for WhenFn<(A, B), P, G> {
    type Output = TestStatus;

    open spec fn pre(&self, av: (<A as DeepView>::V, <B as DeepView>::V)) -> bool {
        &&& forall|x: A, y: B|
            x.deep_view() == av.0 && y.deep_view() == av.1 ==> #[trigger] call_requires(
                *self.predicate,
                (x, y),
            )
        &&& self.f.pre(av)
    }

    open spec fn post(&self, av: (<A as DeepView>::V, <B as DeepView>::V), r: TestStatus) -> bool {
        exists|x: A, y: B, b: bool|
            x.deep_view() == av.0 && y.deep_view() == av.1 && #[trigger] call_ensures(
                *self.predicate,
                (x, y),
                b,
            ) && (if b {
                self.f.post(av, r)
            } else {
                r == TestStatus::Discard
            })
    }

    fn call(&self, args: (A, B)) -> (r: TestStatus)
        ensures
            self.post(args.deep_view(), r),
    {
        proof {
            assert(args.0.deep_view() == args.deep_view().0);
            assert(args.1.deep_view() == args.deep_view().1);
        }
        let pa = args.0.dup();
        let pb = args.1.dup();
        let ghost pag = pa;
        let ghost pbg = pb;
        let ok = (&*self.predicate)(pa, pb);
        let ghost okg = ok;
        if ok {
            let r = self.f.call(args);
            proof {
                assert(pag.deep_view() == args.deep_view().0 && pbg.deep_view()
                    == args.deep_view().1 && call_ensures(*self.predicate, (pag, pbg), okg));
            }
            r
        } else {
            proof {
                assert(pag.deep_view() == args.deep_view().0 && pbg.deep_view()
                    == args.deep_view().1 && call_ensures(*self.predicate, (pag, pbg), okg));
            }
            TestStatus::Discard
        }
    }
}

/// An argument bundle wrapped for the bundle-generic machinery.
pub struct QuickFnArgs<A>(pub A);

impl<A: DeepView> DeepView for QuickFnArgs<A> {
    type V = <A as DeepView>::V;

    open spec fn deep_view(&self) -> Self::V {
        self.0.deep_view()
    }
}

impl<A: Dup> Dup for QuickFnArgs<A> {
    fn dup(&self) -> (r: Self)
        ensures
            r.deep_view() == self.deep_view(),
    {
        QuickFnArgs(self.0.dup())
    }
}

impl<A: Arbitrary> Arbitrary for QuickFnArgs<A> {
    type Generator = QuickFnArgs<A::Generator>;

    type Shrink = Empty<QuickFnArgs<A>>;

    fn arbitrary() -> Self::Generator {
        QuickFnArgs(A::arbitrary())
    }

    fn shrink() -> Self::Shrink {
        Empty::empty()
    }
}

impl<A: Generator> Generator for QuickFnArgs<A> {
    type Output = QuickFnArgs<A::Output>;

    open spec fn gen_ens(&self, size: nat, r: QuickFnArgs<A::Output>) -> bool {
        self.0.gen_ens(size, r.0)
    }

    open spec fn consumes_at_zero(&self) -> bool {
        self.0.consumes_at_zero()
    }

    fn generate(&self, ctx: &mut GenerateCtx) -> (r: QuickFnArgs<A::Output>)
        ensures
            final(ctx).size == old(ctx).size,
            self.gen_ens(old(ctx).size as nat, r),
            old(ctx).size == 0 && !self.consumes_at_zero() ==> final(ctx).rng == old(ctx).rng,
    {
        QuickFnArgs(self.0.generate(ctx))
    }
}

} // verus!
