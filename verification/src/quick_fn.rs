//! The predicate capability: invoke with one argument bundle, get the
//! predicate's own outcome.
//!
//! A [`QuickFn`] is what a property evaluates on each generated or shrunk
//! input. Its contract is stated over the bundle's abstract value (its
//! `deep_view`), so that a predicate behaves the same on any two bundles
//! denoting the same value — which is what lets the engine evaluate it on
//! fresh copies of an input during shrinking. Ordinary functions of any
//! supported arity act as predicates through the [`MyCall`] adapter; the
//! outcome is converted to a verdict where the property is evaluated.

use vstd::prelude::*;
use crate::call::MyCall;
use crate::dup::Share;
use crate::testable::{TestStatus, ToStatus};

verus! {

/// A predicate over argument bundles of type `Args`.
pub trait QuickFn<Args: DeepView> {
    /// The predicate's own outcome type; its conversion gives the verdict.
    type Output;

    /// When the predicate may be evaluated on a bundle with this abstract
    /// value.
    spec fn pre(&self, av: <Args as DeepView>::V) -> bool;

    /// What holds of the outcome for a bundle with this abstract value.
    spec fn post(&self, av: <Args as DeepView>::V, r: Self::Output) -> bool;

    /// Evaluates the predicate on one bundle.
    fn call(&self, args: Args) -> (r: Self::Output)
        requires
            self.pre(args.deep_view()),
        ensures
            self.post(args.deep_view(), r),
    ;
}

impl<O, F: Fn() -> O> QuickFn<()> for MyCall<F, ()> {
    type Output = O;

    open spec fn pre(&self, av: ()) -> bool {
        call_requires(*self.f, ())
    }

    open spec fn post(&self, av: (), r: O) -> bool {
        call_ensures(*self.f, (), r)
    }

    fn call(&self, args: ()) -> (r: O)
        ensures
            self.post(args.deep_view(), r),
    {
        (&*self.f)()
    }
}

impl<O, A: DeepView, F: Fn(A) -> O> QuickFn<(A,)> for MyCall<F, (A,)> {
    type Output = O;

    open spec fn pre(&self, av: (<A as DeepView>::V,)) -> bool {
        forall|x: A| x.deep_view() == av.0 ==> #[trigger] call_requires(*self.f, (x,))
    }

    open spec fn post(&self, av: (<A as DeepView>::V,), r: O) -> bool {
        exists|x: A| x.deep_view() == av.0 && #[trigger] call_ensures(*self.f, (x,), r)
    }

    fn call(&self, args: (A,)) -> (r: O)
        ensures
            self.post(args.deep_view(), r),
    {
        proof {
            assert(args.0.deep_view() == args.deep_view().0);
        }
        let ghost xg = args.0;
        let r = (&*self.f)(args.0);
        proof {
            assert(xg.deep_view() == args.deep_view().0 && call_ensures(*self.f, (xg,), r));
        }
        r
    }
}

impl<O, A: DeepView, B: DeepView, F: Fn(A, B) -> O> QuickFn<(A, B)> for MyCall<F, (A, B)> {
    type Output = O;

    open spec fn pre(&self, av: (<A as DeepView>::V, <B as DeepView>::V)) -> bool {
        forall|x: A, y: B|
            x.deep_view() == av.0 && y.deep_view() == av.1 ==> #[trigger] call_requires(
                *self.f,
                (x, y),
            )
    }

    open spec fn post(&self, av: (<A as DeepView>::V, <B as DeepView>::V), r: O) -> bool {
        exists|x: A, y: B|
            x.deep_view() == av.0 && y.deep_view() == av.1 && #[trigger] call_ensures(
                *self.f,
                (x, y),
                r,
            )
    }

    fn call(&self, args: (A, B)) -> (r: O)
        ensures
            self.post(args.deep_view(), r),
    {
        proof {
            assert(args.0.deep_view() == args.deep_view().0);
            assert(args.1.deep_view() == args.deep_view().1);
        }
        let ghost xg = args.0;
        let ghost yg = args.1;
        let r = (&*self.f)(args.0, args.1);
        proof {
            assert(xg.deep_view() == args.deep_view().0 && yg.deep_view() == args.deep_view().1
                && call_ensures(*self.f, (xg, yg), r));
        }
        r
    }
}

impl<O, A: DeepView, B: DeepView, C: DeepView, F: Fn(A, B, C) -> O> QuickFn<(A, B, C)> for MyCall<
    F,
    (A, B, C),
> {
    type Output = O;

    open spec fn pre(&self, av: (<A as DeepView>::V, <B as DeepView>::V, <C as DeepView>::V)) -> bool {
        forall|x: A, y: B, z: C|
            x.deep_view() == av.0 && y.deep_view() == av.1 && z.deep_view() == av.2
                ==> #[trigger] call_requires(*self.f, (x, y, z))
    }

    open spec fn post(
        &self,
        av: (<A as DeepView>::V, <B as DeepView>::V, <C as DeepView>::V),
        r: O,
    ) -> bool {
        exists|x: A, y: B, z: C|
            x.deep_view() == av.0 && y.deep_view() == av.1 && z.deep_view() == av.2
                && #[trigger] call_ensures(*self.f, (x, y, z), r)
    }

    fn call(&self, args: (A, B, C)) -> (r: O)
        ensures
            self.post(args.deep_view(), r),
    {
        proof {
            assert(args.0.deep_view() == args.deep_view().0);
            assert(args.1.deep_view() == args.deep_view().1);
            assert(args.2.deep_view() == args.deep_view().2);
        }
        let ghost xg = args.0;
        let ghost yg = args.1;
        let ghost zg = args.2;
        let r = (&*self.f)(args.0, args.1, args.2);
        proof {
            assert(xg.deep_view() == args.deep_view().0 && yg.deep_view() == args.deep_view().1
                && zg.deep_view() == args.deep_view().2 && call_ensures(*self.f, (xg, yg, zg), r));
        }
        r
    }
}

/// A predicate that yields the verdict denoted by its inner predicate's
/// outcome.
pub struct StatusFn<G>(pub G);

impl<G: Share> Share for StatusFn<G> {
    fn share(&self) -> (r: Self)
        ensures
            r == *self,
    {
        StatusFn(self.0.share())
    }
}

impl<Args: DeepView, G: QuickFn<Args>> QuickFn<Args> for StatusFn<G> where
    <G as QuickFn<Args>>::Output: ToStatus,
 {
    type Output = TestStatus;

    open spec fn pre(&self, av: <Args as DeepView>::V) -> bool {
        self.0.pre(av)
    }

    open spec fn post(&self, av: <Args as DeepView>::V, r: TestStatus) -> bool {
        exists|o: <G as QuickFn<Args>>::Output| #[trigger] self.0.post(av, o) && r
            == o.spec_status()
    }

    fn call(&self, args: Args) -> (r: TestStatus)
        ensures
            self.post(args.deep_view(), r),
    {
        let o = self.0.call(args);
        let ghost og = o;
        let r = o.to_status();
        proof {
            assert(self.0.post(args.deep_view(), og) && r == og.spec_status());
        }
        r
    }
}

/// A totality introduction for wrapped plain functions: a function that
/// accepts every argument is a predicate that accepts every bundle.
pub proof fn lemma_fn_total0<O, F: Fn() -> O>(m: MyCall<F, ()>)
    requires
        call_requires(*m.f, ()),
    ensures
        crate::property::pred_total::<(), MyCall<F, ()>>(m),
{
    assert forall|av: ()| #[trigger] m.pre(av) by {}
}

/// A totality introduction for wrapped plain functions: a function that
/// accepts every argument is a predicate that accepts every bundle.
pub proof fn lemma_fn_total1<O, A: DeepView, F: Fn(A) -> O>(m: MyCall<F, (A,)>)
    requires
        forall|x: A| #[trigger] call_requires(*m.f, (x,)),
    ensures
        crate::property::pred_total::<(A,), MyCall<F, (A,)>>(m),
{
    assert forall|av: (<A as DeepView>::V,)| #[trigger] m.pre(av) by {
        assert forall|x: A| x.deep_view() == av.0 implies #[trigger] call_requires(
            *m.f,
            (x,),
        ) by {}
    }
}

/// A totality introduction for wrapped plain functions: a function that
/// accepts every argument pair is a predicate that accepts every bundle.
pub proof fn lemma_fn_total2<O, A: DeepView, B: DeepView, F: Fn(A, B) -> O>(m: MyCall<F, (A, B)>)
    requires
        forall|x: A, y: B| #[trigger] call_requires(*m.f, (x, y)),
    ensures
        crate::property::pred_total::<(A, B), MyCall<F, (A, B)>>(m),
{
    assert forall|av: (<A as DeepView>::V, <B as DeepView>::V)| #[trigger] m.pre(av) by {
        assert forall|x: A, y: B|
            x.deep_view() == av.0 && y.deep_view() == av.1 implies #[trigger] call_requires(
            *m.f,
            (x, y),
        ) by {}
    }
}

/// A totality introduction for wrapped plain functions: a function that
/// accepts every argument triple is a predicate that accepts every bundle.
pub proof fn lemma_fn_total3<O, A: DeepView, B: DeepView, C: DeepView, F: Fn(A, B, C) -> O>(
    m: MyCall<F, (A, B, C)>,
)
    requires
        forall|x: A, y: B, z: C| #[trigger] call_requires(*m.f, (x, y, z)),
    ensures
        crate::property::pred_total::<(A, B, C), MyCall<F, (A, B, C)>>(m),
{
    assert forall|av: (<A as DeepView>::V, <B as DeepView>::V, <C as DeepView>::V)|
        #[trigger] m.pre(av) by {
        assert forall|x: A, y: B, z: C|
            x.deep_view() == av.0 && y.deep_view() == av.1 && z.deep_view()
                == av.2 implies #[trigger] call_requires(*m.f, (x, y, z)) by {}
    }
}

/// Totality carries through the verdict conversion.
pub proof fn lemma_status_fn_total<Args: DeepView, G: QuickFn<Args>>(s: StatusFn<G>) where
    <G as QuickFn<Args>>::Output: ToStatus,

    requires
        crate::property::pred_total::<Args, G>(s.0),
    ensures
        crate::property::pred_total::<Args, StatusFn<G>>(s),
{
    assert forall|av: <Args as DeepView>::V| #[trigger] s.pre(av) by {
        assert(s.0.pre(av));
    }
}

} // verus!
