use quick_check::generate::{
    FromIteratorGenerator, GenerateCtx, Generator, IntegerGenerator, UnsignedIntegerGenerator,
    Constant,
};
use quick_check::property::Property;
use quick_check::random::RandomSource;
use quick_check::rose::{GenerateWithRose, GeneratedRose, KidsCursor, RoseTrait, RoseTraitMap};
use quick_check::shrink::{
    Candidates, DefaultShrinker, Empty, FromIteratorShrinker, IntegerShrinker, Shrink,
    UnsignedIntegerShrinker,
};
use quick_check::testable::{IntoTestable, TestStatus};
use quick_check::{quicktest, QuickCheckError};

fn collect<S: Shrink>(s: &S, v: &S::Item) -> Vec<S::Item> {
    let mut it = s.shrink(v);
    let mut out = Vec::new();
    while let Some(c) = it.next() {
        out.push(c);
    }
    out
}

#[test]
fn size_zero_yields_zero_for_integers() {
    for seed in [1u64, 2, 3] {
        let mut ctx = GenerateCtx::new(RandomSource::from_seed(seed), 0);
        assert_eq!(IntegerGenerator::<i64>::new().generate(&mut ctx), 0);
        assert_eq!(IntegerGenerator::<i8>::new().generate(&mut ctx), 0);
        assert_eq!(UnsignedIntegerGenerator::<u32>::new().generate(&mut ctx), 0);
        assert_eq!(UnsignedIntegerGenerator::<usize>::new().generate(&mut ctx), 0);
    }
}

#[test]
fn size_zero_yields_empty_collections() {
    for seed in [11u64, 12, 13] {
        let mut ctx = GenerateCtx::new(RandomSource::from_seed(seed), 0);
        let gen = FromIteratorGenerator::<Vec<u8>, _>::new(UnsignedIntegerGenerator::<u8>::new());
        assert_eq!(gen.generate(&mut ctx), Vec::<u8>::new());
    }
}

#[test]
fn integer_generation_respects_the_budget() {
    let mut ctx = GenerateCtx::new(RandomSource::from_seed(21), 7);
    let gen = IntegerGenerator::<i64>::new();
    for _ in 0..200 {
        let v = gen.generate(&mut ctx);
        assert!(-7 <= v && v <= 7);
    }
}

#[test]
fn integer_shrink_is_monotonic() {
    let s = IntegerShrinker::<i64>::new();
    for v in [1i64, 2, 5, 7, 100, -1, -6, -100] {
        let cands = collect(&s, &v);
        assert!(!cands.is_empty());
        assert_eq!(cands[0], 0);
        let mut zeros = 0;
        for c in &cands {
            if *c == 0 {
                zeros += 1;
            }
            if v < 0 && *c == -v {
                continue;
            }
            assert!(c.abs() < v.abs(), "candidate {} for {}", c, v);
        }
        assert_eq!(zeros, 1);
    }
    assert!(collect(&s, &0).is_empty());
}

#[test]
fn integer_shrink_exact_small_case() {
    let s = IntegerShrinker::<i64>::new();
    assert_eq!(collect(&s, &5), vec![0, 2, 4, 3, 2, 1]);
    assert_eq!(collect(&s, &-3), vec![0, 3, -1, -2, -1]);
    assert_eq!(collect(&s, &1), vec![0]);
}

#[test]
fn unsigned_shrink_is_monotonic() {
    let s = UnsignedIntegerShrinker::<u64>::new();
    for v in [1u64, 2, 9, 1000] {
        let cands = collect(&s, &v);
        assert!(!cands.is_empty());
        assert_eq!(cands[0], 0);
        for c in &cands {
            assert!(*c < v);
        }
    }
    assert!(collect(&s, &0).is_empty());
    assert_eq!(collect(&s, &6), vec![0, 3, 5, 4, 3, 2, 1]);
}

#[test]
fn unsigned_strategy_on_signed_values() {
    let s = UnsignedIntegerShrinker::<i8>::new();
    assert_eq!(collect(&s, &6i8), vec![0, 3, 5, 4, 3, 2, 1]);
    assert_eq!(collect(&s, &-7i8), vec![0, -3]);
    assert_eq!(collect(&s, &-1i8), vec![0]);
    assert!(collect(&s, &0i8).is_empty());
    for v in [3i8, 100, -2, -100, i8::MIN] {
        for c in collect(&s, &v) {
            assert!((c as i16).abs() < (v as i16).abs());
        }
    }
}

#[test]
fn bool_shrink() {
    let s = DefaultShrinker::<bool>::new();
    assert_eq!(collect(&s, &true), vec![false]);
    assert!(collect(&s, &false).is_empty());
}

#[test]
fn empty_shrink_proposes_nothing() {
    let s = Empty::<char>::empty();
    assert!(collect(&s, &'x').is_empty());
}

#[test]
fn collection_shrink_terminates_and_bounds_lengths() {
    let s = FromIteratorShrinker::<Vec<u8>, _>::new(UnsignedIntegerShrinker::<u8>::new());
    let v: Vec<u8> = vec![3, 1, 4, 1, 5];
    let cands = collect(&s, &v);
    assert!(!cands.is_empty());
    assert_eq!(cands[0], Vec::<u8>::new());
    let mut shorter = 0;
    for c in &cands {
        assert!(c.len() <= v.len());
        if c.len() < v.len() {
            shorter += 1;
        }
    }
    assert!(shorter >= 1);
    assert!(collect(&s, &Vec::<u8>::new()).is_empty());
}

#[test]
fn collection_shrink_exact_small_case() {
    let s = FromIteratorShrinker::<Vec<u8>, _>::new(UnsignedIntegerShrinker::<u8>::new());
    let cands = collect(&s, &vec![2u8, 3]);
    // chunk removals of width two and one, then each element replaced by its
    // first own candidate
    assert_eq!(
        cands,
        vec![vec![], vec![3u8], vec![2u8], vec![0u8, 3], vec![2u8, 0]]
    );
}

#[test]
fn tuple_shrink_changes_one_position_at_a_time() {
    let s = (UnsignedIntegerShrinker::<u8>::new(), UnsignedIntegerShrinker::<u8>::new());
    let cands = collect(&s, &(2u8, 1u8));
    for (a, b) in &cands {
        assert!((*a < 2 && *b == 1) || (*a == 2 && *b < 1));
    }
    assert_eq!(cands[0], (0u8, 1u8));
}

#[test]
fn tree_is_lazy_even_for_enormous_candidate_sequences() {
    // the unit-step walk for this value has nearly 2^63 entries; building
    // the tree and taking the first child must not materialize it
    let rose = GeneratedRose::new(i64::MAX - 1, IntegerShrinker::<i64>::new());
    let mut kids = rose.iterator();
    let first = kids.next().expect("a first child");
    assert_eq!(*first.value(), 0);
    let second = kids.next().expect("a second child");
    assert_eq!(*second.value(), (i64::MAX - 1) / 2);
}

#[test]
fn shrink_search_finds_a_local_minimum() {
    // fails for every integer of magnitude five or more; the reported
    // counterexample must be minimal: exactly five or minus five
    let prop = Property::<(i64,)>::for_all_shrink(
        (Constant(100i64),),
        (IntegerShrinker::<i64>::new(),),
    )
    .property(|x: i64| -5 < x && x < 5);
    match quicktest(prop) {
        Err(QuickCheckError::Failure { input, .. }) => {
            assert!(input == "(5,)" || input == "(-5,)", "not minimal: {}", input);
        }
        other => panic!("expected a failure report, got {:?}", other),
    }
}

#[test]
fn always_rejecting_precondition_gives_up_after_the_whole_budget() {
    let prop = Property::<(usize,)>::when(|_s: usize| false).property(|_| true);
    match quicktest(prop) {
        Err(QuickCheckError::GaveUp { successful_tests, attempts }) => {
            assert_eq!(successful_tests, 0);
            assert_eq!(attempts, 1000);
        }
        other => panic!("expected to give up, got {:?}", other),
    }
}

#[test]
fn expected_failure_round_trip() {
    let failing = Property::<()>::new(|| false);
    assert!(matches!(
        quicktest(failing.expect_failure()),
        Ok(_)
    ));
    let failing_again = Property::<()>::new(|| false);
    assert!(matches!(
        quicktest(failing_again),
        Err(QuickCheckError::Failure { .. })
    ));
}

#[test]
fn expected_failure_that_never_fails_is_reported() {
    let passing = Property::<()>::new(|| true).expect_failure();
    assert!(matches!(
        quicktest(passing),
        Err(QuickCheckError::NoExpectedFailure)
    ));
}

#[test]
fn seeded_sources_are_deterministic() {
    let mut a = RandomSource::from_seed(99);
    let mut b = RandomSource::from_seed(99);
    let mut differs_from_bound = false;
    for _ in 0..50 {
        let x = a.below_usize(17);
        let y = b.below_usize(17);
        assert_eq!(x, y);
        assert!(x <= 17);
        if x != 17 {
            differs_from_bound = true;
        }
    }
    assert!(differs_from_bound);
}

#[test]
fn ranged_draws_stay_in_range() {
    let mut r = RandomSource::from_seed(5);
    let mut seen_nonzero = false;
    for _ in 0..100 {
        let v = r.range_i64(-9, 9);
        assert!(-9 <= v && v <= 9);
        if v != 0 {
            seen_nonzero = true;
        }
        let u = r.range_u64(3, 12);
        assert!(3 <= u && u <= 12);
    }
    assert!(seen_nonzero);
}

#[test]
fn resized_trials_use_the_recomputed_size() {
    // every trial is forced to size zero, so every generated integer is zero
    let prop = Property::<(i64,)>::new(|x: i64| x == 0).resize(|_| 0);
    assert_eq!(quicktest(prop).ok(), Some(100));
}

#[test]
fn mapped_trees_transform_every_visited_value() {
    let rose = GeneratedRose::new(4u64, UnsignedIntegerShrinker::<u64>::new());
    let mapped = rose.map(|v: &u64| *v * 10);
    assert_eq!(*mapped.value(), 40);
    let mut kids = mapped.iterator();
    let first = kids.next().expect("a first child");
    assert_eq!(*first.value(), 0);
    let second = kids.next().expect("a second child");
    assert_eq!(*second.value(), 20);
}

#[test]
fn scanned_trees_thread_the_state() {
    let rose = GeneratedRose::new(4u64, UnsignedIntegerShrinker::<u64>::new());
    let scanned = rose.scan(3u64, |s: &u64, v: &u64| *s + *v);
    assert_eq!(*scanned.value(), 7);
    let mut kids = scanned.iterator();
    let first = kids.next().expect("a first child");
    assert_eq!(*first.value(), 3);
}

#[test]
fn generate_with_rose_carries_its_state_to_children() {
    let rose = GenerateWithRose::new(6u64, 42u64, UnsignedIntegerShrinker::<u64>::new());
    let mut kids = rose.iterator();
    let first = kids.next().expect("a first child");
    assert_eq!(*first.value(), 0);
    assert_eq!(first.state, 42);
}

#[test]
fn verdict_conversions() {
    assert_eq!(TestStatus::from(true), TestStatus::Pass);
    assert_eq!(TestStatus::from(false), TestStatus::Fail);
    assert_eq!(TestStatus::from(()), TestStatus::Pass);
    assert_eq!(TestStatus::from(Ok::<bool, i32>(true)), TestStatus::Pass);
    assert_eq!(TestStatus::from(Ok::<bool, i32>(false)), TestStatus::Fail);
    assert_eq!(TestStatus::from(Err::<bool, i32>(7)), TestStatus::Fail);
}
