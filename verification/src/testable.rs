//! Verdicts and the testable-unit abstraction.
//!
//! Evaluating a predicate on one generated input yields a [`TestStatus`]:
//! `Pass`, `Fail`, or `Discard` when a precondition rejected the input. A
//! [`TestResult`] pairs the status with a rendering of the input for
//! reporting. A [`Testable`] produces, from a generation context, a whole
//! candidate tree of test results, lazily; the runner reads its root and
//! walks its children only on failure.

use vstd::prelude::*;
use crate::generate::GenerateCtx;
use crate::rose::RoseTrait;

verus! {

/// The outcome of evaluating a predicate on one input.
#[derive(Copy, Clone, Debug, PartialEq, Eq, Structural)]
pub enum TestStatus {
    Pass,
    Fail,
    Discard,
}

/// The outcome of one trial: the verdict and a rendering of the input that
/// produced it.
#[derive(Clone)]
pub struct TestResult {
    pub input: String,
    pub status: TestStatus,
}

/// The abstract content of a [`TestResult`].
pub ghost struct TestResultView {
    pub input: Seq<char>,
    pub status: TestStatus,
}

impl DeepView for TestResult {
    type V = TestResultView;

    open spec fn deep_view(&self) -> TestResultView {
        TestResultView { input: self.input@, status: self.status }
    }
}

impl From<bool> for TestStatus {
    /// `true` passes, `false` fails.
    fn from(success: bool) -> (r: TestStatus) {
        if success {
            TestStatus::Pass
        } else {
            TestStatus::Fail
        }
    }
}

impl vstd::std_specs::convert::FromSpecImpl<bool> for TestStatus {
    open spec fn obeys_from_spec() -> bool {
        true
    }

    open spec fn from_spec(v: bool) -> TestStatus {
        if v {
            TestStatus::Pass
        } else {
            TestStatus::Fail
        }
    }
}

impl From<()> for TestStatus {
    /// A predicate with no result observable beyond not faulting passes.
    fn from(v: ()) -> (r: TestStatus) {
        TestStatus::Pass
    }
}

impl vstd::std_specs::convert::FromSpecImpl<()> for TestStatus {
    open spec fn obeys_from_spec() -> bool {
        true
    }

    open spec fn from_spec(v: ()) -> TestStatus {
        TestStatus::Pass
    }
}

impl<T: Into<TestStatus>, E> From<Result<T, E>> for TestStatus {
    /// A two-variant outcome: the success variant converts on its own
    /// terms, the error variant fails.
    fn from(v: Result<T, E>) -> (r: TestStatus) {
        match v {
            Result::Ok(t) => t.into(),
            Result::Err(_) => TestStatus::Fail,
        }
    }
}

impl<T: Into<TestStatus>, E> vstd::std_specs::convert::FromSpecImpl<Result<T, E>> for TestStatus {
    open spec fn obeys_from_spec() -> bool {
        <T as vstd::std_specs::convert::IntoSpec<TestStatus>>::obeys_into_spec()
    }

    open spec fn from_spec(v: Result<T, E>) -> TestStatus {
        match v {
            Result::Ok(t) => <T as vstd::std_specs::convert::IntoSpec<TestStatus>>::into_spec(t),
            Result::Err(_) => TestStatus::Fail,
        }
    }
}

/// Relies on std's `Debug` formatting: renders one generated input for
/// the report attached to its verdict.
#[verifier::external_body]
fn render_debug<T: core::fmt::Debug>(t: &T) -> String {
    format!("{:?}", t)
}

/// Rendering of generated inputs for failure reports. The rendering is
/// for human eyes only: no contract ties it to the value's content.
pub trait Render {
    /// Renders the value.
    fn render(&self) -> String;
}

impl<T: core::fmt::Debug> Render for T {
    fn render(&self) -> String {
        render_debug(self)
    }
}

/// Something a predicate can return whose meaning is a verdict.
pub trait ToStatus: Sized {
    /// The verdict this outcome denotes.
    spec fn spec_status(self) -> TestStatus;

    /// The verdict this outcome denotes, at runtime.
    fn to_status(self) -> (r: TestStatus)
        ensures
            r == self.spec_status(),
    ;
}

impl ToStatus for bool {
    open spec fn spec_status(self) -> TestStatus {
        if self {
            TestStatus::Pass
        } else {
            TestStatus::Fail
        }
    }

    fn to_status(self) -> (r: TestStatus)
        ensures
            r == self.spec_status(),
    {
        if self {
            TestStatus::Pass
        } else {
            TestStatus::Fail
        }
    }
}

impl ToStatus for () {
    open spec fn spec_status(self) -> TestStatus {
        TestStatus::Pass
    }

    fn to_status(self) -> (r: TestStatus)
        ensures
            r == self.spec_status(),
    {
        TestStatus::Pass
    }
}

impl ToStatus for TestStatus {
    open spec fn spec_status(self) -> TestStatus {
        self
    }

    fn to_status(self) -> (r: TestStatus)
        ensures
            r == self.spec_status(),
    {
        self
    }
}

impl<T: ToStatus, E> ToStatus for Result<T, E> {
    open spec fn spec_status(self) -> TestStatus {
        match self {
            Result::Ok(t) => t.spec_status(),
            Result::Err(_) => TestStatus::Fail,
        }
    }

    fn to_status(self) -> (r: TestStatus)
        ensures
            r == self.spec_status(),
    {
        match self {
            Result::Ok(t) => t.to_status(),
            Result::Err(_) => TestStatus::Fail,
        }
    }
}

/// A unit that can be put on trial: it turns one generation context into a
/// lazy candidate tree of test results.
pub trait Testable {
    type Rose: RoseTrait<TestResult>;

    /// Whether an observed failure is the expected outcome of the run.
    spec fn expected_fail(&self) -> bool;

    /// The unit's internal consistency.
    spec fn twf(&self) -> bool;

    /// Which verdicts a trial of this unit can produce at all. A property
    /// whose precondition rejects every input, for instance, can only ever
    /// produce `Discard`.
    spec fn may_verdict(&self, s: TestStatus) -> bool;

    /// Runs one trial: generates an input, evaluates the predicate on it,
    /// and returns the root of the verdict tree, whose children shrink the
    /// trial's input.
    fn test(&self, ctx: &mut GenerateCtx) -> (r: Self::Rose)
        requires
            self.twf(),
        ensures
            r.wf(),
            final(ctx).size == old(ctx).size,
            self.may_verdict(r.val().status),
    ;

    /// Whether failure is expected, at runtime.
    fn is_expected_to_fail(&self) -> (r: bool)
        ensures
            r == self.expected_fail(),
    ;
}

/// Anything convertible into a [`Testable`], with the combinators that wrap
/// one.
pub trait IntoTestable: Sized {
    type Testable: Testable;

    /// Whether the resulting testable expects failure.
    spec fn spec_expected_fail(&self) -> bool;

    /// The consistency the resulting testable inherits.
    spec fn itwf(&self) -> bool;

    /// Which verdicts the resulting testable can produce.
    spec fn spec_may_verdict(&self, s: TestStatus) -> bool;

    /// The conversion itself.
    fn into_testable(self) -> (r: Self::Testable)
        ensures
            r.expected_fail() == self.spec_expected_fail(),
            self.itwf() ==> r.twf(),
            forall|s: TestStatus| #[trigger] r.may_verdict(s) ==> self.spec_may_verdict(s),
    ;

    /// Wraps the testable so every trial runs under a recomputed size.
    fn resize<F: Fn(usize) -> usize>(self, resize: F) -> (r: ResizedTestable<Self::Testable, F>)
        ensures
            r.resize == resize,
            self.itwf() ==> r.testable.twf(),
            r.testable.expected_fail() == self.spec_expected_fail(),
    ;

    /// Wraps the testable so an observed failure counts as success.
    fn expect_failure(self) -> (r: FailureExpectedTestable<Self::Testable>)
        ensures
            self.itwf() ==> r.0.twf(),
    ;
}

/// A testable whose trials run under a recomputed size budget.
pub struct ResizedTestable<T, F> {
    pub testable: T,
    pub resize: F,
}

impl<T: Testable, F: Fn(usize) -> usize> Testable for ResizedTestable<T, F> {
    type Rose = T::Rose;

    open spec fn expected_fail(&self) -> bool {
        self.testable.expected_fail()
    }

    open spec fn twf(&self) -> bool {
        self.testable.twf() && forall|s: usize| call_requires(self.resize, (s,))
    }

    open spec fn may_verdict(&self, s: TestStatus) -> bool {
        self.testable.may_verdict(s)
    }

    fn test(&self, ctx: &mut GenerateCtx) -> (r: Self::Rose)
        ensures
            r.wf(),
            final(ctx).size == old(ctx).size,
            self.may_verdict(r.val().status),
    {
        let full = ctx.size;
        let new_size = (self.resize)(ctx.size);
        ctx.size = new_size;
        let r = self.testable.test(ctx);
        ctx.size = full;
        r
    }

    fn is_expected_to_fail(&self) -> (r: bool)
        ensures
            r == self.expected_fail(),
    {
        self.testable.is_expected_to_fail()
    }
}

/// A testable whose failure is the intended outcome, for putting the engine
/// itself on trial.
pub struct FailureExpectedTestable<T>(pub T);

impl<T: Testable> Testable for FailureExpectedTestable<T> {
    type Rose = T::Rose;

    open spec fn expected_fail(&self) -> bool {
        true
    }

    open spec fn twf(&self) -> bool {
        self.0.twf()
    }

    open spec fn may_verdict(&self, s: TestStatus) -> bool {
        self.0.may_verdict(s)
    }

    fn test(&self, ctx: &mut GenerateCtx) -> (r: Self::Rose)
        ensures
            r.wf(),
            final(ctx).size == old(ctx).size,
            self.may_verdict(r.val().status),
    {
        self.0.test(ctx)
    }

    fn is_expected_to_fail(&self) -> (r: bool)
        ensures
            r == self.expected_fail(),
    {
        true
    }
}

impl<T: Testable> Testable for &T {
    type Rose = T::Rose;

    open spec fn expected_fail(&self) -> bool {
        (**self).expected_fail()
    }

    open spec fn twf(&self) -> bool {
        (**self).twf()
    }

    open spec fn may_verdict(&self, s: TestStatus) -> bool {
        (**self).may_verdict(s)
    }

    fn test(&self, ctx: &mut GenerateCtx) -> (r: Self::Rose)
        ensures
            r.wf(),
            final(ctx).size == old(ctx).size,
            self.may_verdict(r.val().status),
    {
        (*self).test(ctx)
    }

    fn is_expected_to_fail(&self) -> (r: bool)
        ensures
            r == self.expected_fail(),
    {
        (*self).is_expected_to_fail()
    }
}

/// Every testable converts to itself: its readiness and its spec-side
/// descriptions carry over unchanged.
pub proof fn lemma_testable_into<T: Testable>(t: T)
    ensures
        t.itwf() == t.twf(),
        t.spec_expected_fail() == t.expected_fail(),
        forall|s: TestStatus| #[trigger] t.spec_may_verdict(s) == t.may_verdict(s),
{
}

impl<T: Testable> IntoTestable for T {
    type Testable = T;

    open spec fn spec_expected_fail(&self) -> bool {
        self.expected_fail()
    }

    open spec fn itwf(&self) -> bool {
        self.twf()
    }

    open spec fn spec_may_verdict(&self, s: TestStatus) -> bool {
        self.may_verdict(s)
    }

    fn into_testable(self) -> (r: T)
        ensures
            r.expected_fail() == self.spec_expected_fail(),
            self.itwf() ==> r.twf(),
            forall|s: TestStatus| #[trigger] r.may_verdict(s) ==> self.spec_may_verdict(s),
    {
        self
    }

    fn resize<F: Fn(usize) -> usize>(self, resize: F) -> (r: ResizedTestable<T, F>)
        ensures
            r.testable == self,
            r.resize == resize,
            self.itwf() ==> r.testable.twf(),
            r.testable.expected_fail() == self.spec_expected_fail(),
    {
        ResizedTestable { testable: self, resize }
    }

    fn expect_failure(self) -> (r: FailureExpectedTestable<T>)
        ensures
            r.0 == self,
            self.itwf() ==> r.0.twf(),
    {
        FailureExpectedTestable(self)
    }
}

} // verus!
