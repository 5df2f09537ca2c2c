//! The runner: schedules trials, tracks discards, and on failure drives the
//! shrink search.
//!
//! A run draws a fresh seed per attempt, builds a deterministic random
//! source from it, computes the trial's size from an adaptive schedule, and
//! evaluates the property once. Passes count toward the target; discards
//! only lengthen the run, up to the configured ratio; the first failure
//! triggers a depth-first walk of the verdict tree toward a locally minimal
//! counterexample, reported together with the seed and size that reproduce
//! the original failing trial.

use vstd::prelude::*;
use crate::generate::GenerateCtx;
use crate::random::{fresh_seed, RandomSource};
use crate::rose::{KidsCursor, RoseTrait};
use crate::testable::{IntoTestable, Testable, TestResult, TestStatus};

verus! {

/// The distinguished outcomes of a run that found no plain success.
#[derive(Clone, Debug)]
pub enum QuickCheckError {
    /// Too many discards relative to successes: the precondition is too
    /// restrictive for the configured ratio.
    GaveUp { successful_tests: usize, attempts: usize },
    /// A counterexample was found; `input` renders it after minimization,
    /// and `seed` and `size` reproduce the original failing trial.
    Failure { input: String, successful_tests: usize, seed: u64, size: usize },
    /// A property expected to fail never failed.
    NoExpectedFailure,
}

/// The cumulative state of one run.
pub struct QuickCheckState {
    pub successful_tests: usize,
    pub recently_discarded_tests: usize,
}

impl QuickCheckState {
    /// A fresh run: nothing passed, nothing discarded.
    pub fn new() -> (r: Self)
        ensures
            r.successful_tests == 0,
            r.recently_discarded_tests == 0,
    {
        QuickCheckState { successful_tests: 0, recently_discarded_tests: 0 }
    }

    /// Records a pass: one more success, and the discard streak ends.
    pub fn test_passed(&mut self)
        requires
            old(self).successful_tests < usize::MAX,
        ensures
            final(self).successful_tests == old(self).successful_tests + 1,
            final(self).recently_discarded_tests == 0,
    {
        self.successful_tests = self.successful_tests + 1;
        self.recently_discarded_tests = 0;
    }

    /// Records a discard: the streak grows, and nothing counts toward the
    /// target.
    pub fn test_discarded(&mut self)
        requires
            old(self).recently_discarded_tests < usize::MAX,
        ensures
            final(self).successful_tests == old(self).successful_tests,
            final(self).recently_discarded_tests == old(self).recently_discarded_tests + 1,
    {
        self.recently_discarded_tests = self.recently_discarded_tests + 1;
    }

    /// The outcome when the attempt budget ran out before the target.
    pub fn gave_up_after(&self, attempts: usize) -> (r: Result<usize, QuickCheckError>)
        ensures
            r == Result::<usize, QuickCheckError>::Err(
                QuickCheckError::GaveUp {
                    successful_tests: self.successful_tests,
                    attempts,
                },
            ),
    {
        Result::Err(
            QuickCheckError::GaveUp { successful_tests: self.successful_tests, attempts },
        )
    }

    /// The outcome when a trial failed: success if failure was expected,
    /// otherwise the failure report itself.
    pub fn test_failed<T: Testable>(
        &self,
        testable: T,
        result: TestResult,
        seed: u64,
        size: usize,
    ) -> (r: Result<usize, QuickCheckError>)
        ensures
            testable.expected_fail() ==> r == Result::<usize, QuickCheckError>::Ok(
                self.successful_tests,
            ),
            !testable.expected_fail() ==> r == Result::<usize, QuickCheckError>::Err(
                QuickCheckError::Failure {
                    input: result.input,
                    successful_tests: self.successful_tests,
                    seed,
                    size,
                },
            ),
    {
        if testable.is_expected_to_fail() {
            Result::Ok(self.successful_tests)
        } else {
            Result::Err(
                QuickCheckError::Failure {
                    input: result.input,
                    successful_tests: self.successful_tests,
                    seed,
                    size,
                },
            )
        }
    }
}

/// The configuration of a run: target success count, maximum ratio of
/// attempts to target, and the size cap.
pub struct QuickCheck {
    pub tests: usize,
    pub max_discard_ratio: usize,
    pub max_size: usize,
}

/// The adaptive size schedule before capping: the success count ramps the
/// size linearly toward the cap — directly when the target splits evenly
/// into whole ramps, rescaled on the final partial ramp otherwise — and a
/// tenth of the discard streak is added so that heavy discarding slowly
/// grows the inputs.
pub open spec fn proposed_size(n: int, d: int, tests: int, m: int) -> int {
    let base = if (m <= tests && (n / m) * m <= tests - m) || tests % m == 0 {
        n % m
    } else {
        ((n % m) * m) / (tests % m)
    };
    base + d / 10
}

impl QuickCheck {
    /// The default configuration: a target of 100 successes, at most 10
    /// attempts per target success, and sizes up to 100.
    pub fn new() -> (r: Self)
        ensures
            r.tests == 100,
            r.max_discard_ratio == 10,
            r.max_size == 100,
    {
        QuickCheck { tests: 100, max_discard_ratio: 10, max_size: 100 }
    }

    /// The same configuration with another size cap.
    pub fn max_size(self, max_size: usize) -> (r: Self)
        ensures
            r.tests == self.tests,
            r.max_discard_ratio == self.max_discard_ratio,
            r.max_size == max_size,
    {
        QuickCheck { max_size, ..self }
    }

    /// The size of the next trial: the adaptive schedule, capped so the
    /// size always stays within `[0, max_size]`.
    pub fn size(&self, state: &QuickCheckState) -> (r: usize)
        requires
            self.max_size >= 1,
        ensures
            r as int == vstd::math::min(
                proposed_size(
                    state.successful_tests as int,
                    state.recently_discarded_tests as int,
                    self.tests as int,
                    self.max_size as int,
                ),
                self.max_size as int,
            ),
            r <= self.max_size,
    {
        let n = state.successful_tests;
        let d = state.recently_discarded_tests;
        let m = self.max_size;
        proof {
            vstd::arithmetic::div_mod::lemma_fundamental_div_mod(n as int, m as int);
            vstd::arithmetic::mul::lemma_mul_is_commutative(n as int / m as int, m as int);
        }
        let base: usize = if (m <= self.tests && (n / m) * m <= self.tests - m) || self.tests % m
            == 0 {
            n % m
        } else {
            proof {
                vstd::arithmetic::mul::lemma_mul_upper_bound(
                    (n % m) as int,
                    u64::MAX as int,
                    m as int,
                    u64::MAX as int,
                );
                assert((u64::MAX as int) * (u64::MAX as int) <= u128::MAX as int);
            }
            let q: u128 = ((n % m) as u128) * (m as u128) / ((self.tests % m) as u128);
            if q > (usize::MAX as u128) {
                usize::MAX
            } else {
                q as usize
            }
        };
        let extra = d / 10;
        let candidate: usize = if base <= usize::MAX - extra {
            base + extra
        } else {
            usize::MAX
        };
        if candidate < m {
            candidate
        } else {
            m
        }
    }
}

/// Finds the first failing child that a cursor still has to offer,
/// together with the verdicts of the children examined before it. When no
/// failing child exists, the whole enumeration has been examined: the
/// trace covers every child the cursor had, and none of them failed.
fn first_failing<N: RoseTrait<TestResult>, K: KidsCursor<TestResult, Node = N>>(kids: &mut K) -> (r:
    (Option<N>, Ghost<Seq<TestStatus>>))
    requires
        old(kids).wf(),
    ensures
        match r.0 {
            Option::Some(n) => K::node_wf(n) && n.val().status == TestStatus::Fail
                && K::node_measure(n) < old(kids).bound(),
            Option::None => r.1@.len() == old(kids).fuel() && forall|i: int|
                0 <= i < r.1@.len() ==> r.1@[i] != TestStatus::Fail,
        },
{
    let ghost mut trace = Seq::<TestStatus>::empty();
    loop
        invariant
            kids.wf(),
            kids.bound() == old(kids).bound(),
            trace.len() + kids.fuel() == old(kids).fuel(),
            forall|i: int| 0 <= i < trace.len() ==> trace[i] != TestStatus::Fail,
        decreases kids.fuel(),
    {
        match kids.next() {
            Option::Some(child) => {
                let st = child.value().status;
                let failing = match st {
                    TestStatus::Fail => true,
                    _ => false,
                };
                if failing {
                    return (Option::Some(child), Ghost(trace));
                }
                proof {
                    trace = trace.push(st);
                }
            },
            Option::None => {
                return (Option::None, Ghost(trace));
            },
        }
    }
}

/// The shrink search: starting from a failing root, repeatedly descend
/// into the first failing child, until a failing node with no failing
/// child is reached. That node's result is the reported counterexample: a
/// local minimum of the failure. Beside the result it returns the
/// evidence: the terminal node and the verdicts observed for its whole
/// child enumeration, one per child, none of them failing.
fn shrink_search<N: RoseTrait<TestResult>>(root: N) -> (r: (TestResult, Ghost<(N, Seq<TestStatus>)>))
    requires
        root.wf(),
        root.val().status == TestStatus::Fail,
    ensures
        r.0.status == TestStatus::Fail,
        r.0.deep_view() == r.1@.0.val(),
        r.1@.1.len() == r.1@.0.degree(),
        forall|i: int| 0 <= i < r.1@.1.len() ==> r.1@.1[i] != TestStatus::Fail,
{
    let mut current = root;
    loop
        invariant
            current.wf(),
            current.val().status == TestStatus::Fail,
        decreases current.height(),
    {
        let mut kids = current.iterator();
        let ghost cap = kids.bound();
        let (found, trace) = first_failing::<N, N::Kids>(&mut kids);
        match found {
            Option::Some(c) => {
                proof {
                    N::child_wf(c);
                    N::child_height(c);
                    assert(c.height() < cap);
                }
                current = c;
            },
            Option::None => {
                let ghost terminal = current;
                let result = current.into_value();
                return (result, Ghost((terminal, trace@)));
            },
        }
    }
}

impl QuickCheck {
    /// Runs the whole loop: up to `tests * max_discard_ratio` attempts,
    /// counting passes toward the target and discards against the budget.
    /// The outcome is exact: success only at the target (or on an expected
    /// failure), `GaveUp` exactly when the budget is spent short of the
    /// target, a failure report only when failure was not expected, and
    /// `NoExpectedFailure` when an expected failure never came. A property
    /// that can only discard gives up with zero successes; one that can
    /// only fail reports at once.
    pub fn quicktest<T: IntoTestable>(&mut self, t: T) -> (r: Result<usize, QuickCheckError>)
        requires
            t.itwf(),
            old(self).max_size >= 1,
            old(self).tests * old(self).max_discard_ratio <= usize::MAX,
        ensures
            *final(self) == *old(self),
            match r {
                Result::Ok(n) => n <= old(self).tests && (n == old(self).tests
                    ==> !t.spec_expected_fail()) && (n < old(self).tests
                    ==> t.spec_expected_fail()),
                Result::Err(QuickCheckError::GaveUp { successful_tests, attempts }) => attempts
                    == old(self).tests * old(self).max_discard_ratio && successful_tests < old(
                    self,
                ).tests,
                Result::Err(QuickCheckError::Failure { successful_tests, .. }) => !t
                    .spec_expected_fail() && successful_tests < old(self).tests,
                Result::Err(QuickCheckError::NoExpectedFailure) => t.spec_expected_fail(),
            },
            ((forall|s: TestStatus| t.spec_may_verdict(s) ==> s == TestStatus::Discard) && old(
                self,
            ).tests >= 1) ==> r == Result::<usize, QuickCheckError>::Err(
                QuickCheckError::GaveUp {
                    successful_tests: 0,
                    attempts: (old(self).tests * old(self).max_discard_ratio) as usize,
                },
            ),
            ((forall|s: TestStatus| t.spec_may_verdict(s) ==> s == TestStatus::Fail) && old(
                self,
            ).tests >= 1 && old(self).max_discard_ratio >= 1) ==> (if t.spec_expected_fail() {
                r == Result::<usize, QuickCheckError>::Ok(0)
            } else {
                (r matches Result::Err(QuickCheckError::Failure { successful_tests, .. })
                    && successful_tests == 0)
            }),
            ((forall|s: TestStatus| t.spec_may_verdict(s) ==> s == TestStatus::Pass) && old(
                self,
            ).tests >= 1 && old(self).max_discard_ratio >= 1 && !t.spec_expected_fail()) ==> r
                == Result::<usize, QuickCheckError>::Ok(old(self).tests),
            ((forall|s: TestStatus| t.spec_may_verdict(s) ==> s == TestStatus::Pass) && old(
                self,
            ).tests >= 1 && old(self).max_discard_ratio >= 1 && t.spec_expected_fail()) ==> r
                == Result::<usize, QuickCheckError>::Err(QuickCheckError::NoExpectedFailure),
            (forall|s: TestStatus| t.spec_may_verdict(s) ==> s != TestStatus::Fail) ==> !(r
                matches Result::Err(QuickCheckError::Failure { .. })),
    {
        let ghost all_discard = forall|s: TestStatus|
            t.spec_may_verdict(s) ==> s == TestStatus::Discard;
        let ghost all_pass = forall|s: TestStatus| t.spec_may_verdict(s) ==> s == TestStatus::Pass;
        let ghost no_fail = forall|s: TestStatus| t.spec_may_verdict(s) ==> s != TestStatus::Fail;
        let ghost all_fail = forall|s: TestStatus| t.spec_may_verdict(s) ==> s == TestStatus::Fail;
        let ghost expected = t.spec_expected_fail();
        let testable = t.into_testable();
        let max_tests = self.tests * self.max_discard_ratio;
        let mut state = QuickCheckState::new();
        let mut attempt: usize = 0;
        while attempt < max_tests
            invariant
                testable.twf(),
                testable.expected_fail() == expected,
                forall|s: TestStatus| #[trigger] testable.may_verdict(s) ==> t.spec_may_verdict(s),
                expected == t.spec_expected_fail(),
                all_discard == (forall|s: TestStatus|
                    t.spec_may_verdict(s) ==> s == TestStatus::Discard),
                all_pass == (forall|s: TestStatus|
                    t.spec_may_verdict(s) ==> s == TestStatus::Pass),
                no_fail == (forall|s: TestStatus|
                    t.spec_may_verdict(s) ==> s != TestStatus::Fail),
                all_fail == (forall|s: TestStatus|
                    t.spec_may_verdict(s) ==> s == TestStatus::Fail),
                max_tests == self.tests * self.max_discard_ratio,
                *self == *old(self),
                self.max_size >= 1,
                attempt <= max_tests,
                state.successful_tests <= self.tests,
                state.successful_tests <= attempt,
                state.recently_discarded_tests <= attempt,
                all_discard ==> state.successful_tests == 0,
                all_pass ==> state.successful_tests == attempt,
                all_fail ==> attempt == 0,
            decreases max_tests - attempt,
        {
            if state.successful_tests >= self.tests {
                if testable.is_expected_to_fail() {
                    return Result::Err(QuickCheckError::NoExpectedFailure);
                }
                return Result::Ok(state.successful_tests);
            }
            let seed = fresh_seed();
            let rng = RandomSource::from_seed(seed);
            let size = self.size(&state);
            let mut ctx = GenerateCtx::new(rng, size);
            let rose = testable.test(&mut ctx);
            let status = rose.value().status;
            match status {
                TestStatus::Pass => {
                    state.test_passed();
                },
                TestStatus::Discard => {
                    state.test_discarded();
                },
                TestStatus::Fail => {
                    let (minimized, _evidence) = shrink_search(rose);
                    return state.test_failed(testable, minimized, seed, size);
                },
            }
            attempt = attempt + 1;
        }
        proof {
            if self.tests >= 1 && self.max_discard_ratio >= 1 {
                assert(self.tests * self.max_discard_ratio >= self.tests) by (nonlinear_arith)
                    requires
                        self.tests >= 1,
                        self.max_discard_ratio >= 1,
                ;
            }
        }
        if state.successful_tests >= self.tests {
            if testable.is_expected_to_fail() {
                return Result::Err(QuickCheckError::NoExpectedFailure);
            }
            return Result::Ok(state.successful_tests);
        }
        state.gave_up_after(max_tests)
    }
}

/// Runs a property under the default configuration.
pub fn quicktest<T: IntoTestable>(t: T) -> (r: Result<usize, QuickCheckError>)
    requires
        t.itwf(),
    ensures
        match r {
            Result::Ok(n) => n <= 100 && (n == 100 ==> !t.spec_expected_fail()) && (n < 100
                ==> t.spec_expected_fail()),
            Result::Err(QuickCheckError::GaveUp { successful_tests, attempts }) => attempts == 1000
                && successful_tests < 100,
            Result::Err(QuickCheckError::Failure { successful_tests, .. }) => !t
                .spec_expected_fail() && successful_tests < 100,
            Result::Err(QuickCheckError::NoExpectedFailure) => t.spec_expected_fail(),
        },
        (forall|s: TestStatus| t.spec_may_verdict(s) ==> s == TestStatus::Discard) ==> r
            == Result::<usize, QuickCheckError>::Err(
            QuickCheckError::GaveUp { successful_tests: 0, attempts: 1000 },
        ),
        (forall|s: TestStatus| t.spec_may_verdict(s) ==> s == TestStatus::Fail) ==> (if t
            .spec_expected_fail() {
            r == Result::<usize, QuickCheckError>::Ok(0)
        } else {
            (r matches Result::Err(QuickCheckError::Failure { successful_tests, .. })
                && successful_tests == 0)
        }),
        ((forall|s: TestStatus| t.spec_may_verdict(s) ==> s == TestStatus::Pass) && !t
            .spec_expected_fail()) ==> r == Result::<usize, QuickCheckError>::Ok(100),
        ((forall|s: TestStatus| t.spec_may_verdict(s) ==> s == TestStatus::Pass)
            && t.spec_expected_fail()) ==> r == Result::<usize, QuickCheckError>::Err(
            QuickCheckError::NoExpectedFailure,
        ),
        (forall|s: TestStatus| t.spec_may_verdict(s) ==> s != TestStatus::Fail) ==> !(r matches
            Result::Err(QuickCheckError::Failure { .. })),
{
    let mut qc = QuickCheck::new();
    qc.quicktest(t)
}

} // verus!
