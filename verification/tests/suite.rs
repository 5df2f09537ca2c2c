use quick_check::arbitrary::Arbitrary;
use quick_check::call::IntoCall;
use quick_check::generate::{Constant, GenerateCtx, Generator, UnsignedIntegerGenerator};
use quick_check::property::Property;
use quick_check::random::RandomSource;
use quick_check::testable::{IntoTestable, TestStatus};
use quick_check::{quicktest, QuickCheck, QuickCheckError};

fn takes_into_call<Args, C: IntoCall<Args>>(_: C) {}

#[test]
fn test_into_call() {
    fn my_fn() -> u8 {
        8u8
    }

    takes_into_call::<(), _>(my_fn as fn() -> u8);
}

#[test]
fn test_into_call_without_casts() {
    fn my_fn() -> u8 {
        8u8
    }
    fn my_fn2(_: usize) -> u8 {
        8u8
    }
    takes_into_call::<(), _>(my_fn);
    takes_into_call::<(usize,), _>(my_fn2);
}

#[test]
fn gen_unit() {
    let rng = RandomSource::from_seed(7);
    let mut ctx = GenerateCtx::new(rng, 5);
    assert_eq!(().generate(&mut ctx), ());
}

#[test]
fn gen_u8() {
    let rng = RandomSource::from_seed(7);
    let mut ctx = GenerateCtx::new(rng, 5);
    let gen = UnsignedIntegerGenerator::<u8>::new();
    rep(&mut || {
        let n = gen.generate(&mut ctx);
        assert!(n <= 5);
    });
}

#[test]
fn gen_i8() {
    let rng = RandomSource::from_seed(7);
    let mut ctx = GenerateCtx::new(rng, 5);
    let gen = UnsignedIntegerGenerator::<i8>::new();
    rep(&mut || {
        let n = gen.generate(&mut ctx);
        assert!((n >= -5) && (n <= 5));
    });
}

fn rep<F>(f: &mut F)
where
    F: FnMut(),
{
    for _ in 0..100 {
        f()
    }
}

#[test]
fn test_simple_property() {
    Property::<()>::new(|| false);
}

#[test]
fn test_for_all_property() {
    Property::<()>::for_all(<()>::arbitrary()).property(|| true);
}

#[test]
fn test_when_property() {
    Property::<()>::when(|| false).property(|| true);
}

#[test]
fn test_generic_property() {
    fn property<A>(_: A) -> bool {
        std::mem::size_of::<A>() == 0
    }

    Property::<(usize,)>::new(property);
}

#[test]
fn property_is_testable() {
    let simple_prop = Property::<()>::new(|| TestStatus::Pass);
    assert!(matches!(quicktest(simple_prop), Ok(_)));
}

#[test]
fn property_is_testable_by_reference() {
    let simple_prop = Property::<()>::new(|| TestStatus::Pass);
    assert!(matches!(quicktest(&simple_prop), Ok(_)));
}

#[test]
fn property_with_args_is_testable() {
    let my_prop = Property::<(usize,)>::new(|_| TestStatus::Pass);
    assert!(matches!(quicktest(&my_prop), Ok(_)));
}

#[test]
fn property_returning_non_test_result_is_testable() {
    let my_prop2 = Property::<(usize,)>::new(|_| true);
    assert!(matches!(quicktest(&my_prop2), Ok(_)));
}

#[test]
fn for_all_is_testable() {
    let for_all_prop = Property::<(usize,)>::for_all((Constant(32usize),)).property(|_| true);
    assert!(matches!(quicktest(&for_all_prop), Ok(_)));
}

#[test]
fn for_all_with_two_arguments_is_testable() {
    let my_prop3 = Property::<(usize, usize)>::for_all((Constant(32usize), Constant(42usize)))
        .property(|_, _| true);
    assert!(matches!(quicktest(&my_prop3), Ok(_)));
}

#[test]
fn when_property_is_testable() {
    let predicate_prop = Property::<(usize,)>::when(|s| s > 5).property(|_| true);
    assert!(matches!(quicktest(&predicate_prop), Ok(_)));
}

#[test]
fn cast_fn_is_testable() {
    fn my_fn() -> bool {
        true
    }
    assert!(matches!(quicktest(Property::<()>::new(my_fn as fn() -> bool)), Ok(_)));

    fn my_fn2(_: usize) -> bool {
        true
    }
    assert!(matches!(
        quicktest(Property::<(usize,)>::new(my_fn2 as fn(usize) -> bool)),
        Ok(_)
    ));
}

#[test]
fn cast_fn_is_testable2() {
    fn simple_prop() -> TestStatus {
        TestStatus::Pass
    }
    assert!(matches!(
        quicktest(Property::<()>::new(simple_prop as fn() -> TestStatus)),
        Ok(_)
    ));
}

#[test]
fn prop_reverse_reverse() {
    fn prop(input: Vec<u8>) -> bool {
        let mut revrev = input.clone();
        revrev.reverse();
        revrev.reverse();
        revrev == input
    }
    assert_eq!(
        quicktest(Property::<(Vec<u8>,)>::new(prop as fn(Vec<u8>) -> bool)).ok(),
        Some(100)
    );
}

#[test]
#[should_panic]
fn prop_oob() {
    fn prop() -> bool {
        let zero: Vec<bool> = vec![];
        zero[0]
    }
    let _ = quicktest(Property::<()>::new(prop as fn() -> bool));
}

#[test]
fn reverse_single() {
    let prop = Property::<(Vec<usize>,)>::when(|xs: Vec<usize>| xs.len() == 1)
        .property(|xs: Vec<usize>| xs == xs.clone().into_iter().rev().collect::<Vec<_>>())
        .resize(|_| 5);

    assert!(matches!(quicktest(prop), Ok(_)));
}

#[test]
fn reverse_app() {
    fn prop(xs: Vec<usize>, ys: Vec<usize>) -> bool {
        let mut app = xs.clone();
        app.extend(ys.iter().cloned());
        let app_rev: Vec<usize> = app.into_iter().rev().collect();

        let rxs: Vec<usize> = xs.into_iter().rev().collect();
        let mut rev_app = ys.into_iter().rev().collect::<Vec<usize>>();
        rev_app.extend(rxs.into_iter());

        app_rev == rev_app
    }
    assert!(matches!(
        quicktest(Property::<(Vec<usize>, Vec<usize>)>::new(
            prop as fn(Vec<usize>, Vec<usize>) -> bool
        )),
        Ok(_)
    ));
}

#[test]
fn max() {
    let prop =
        Property::<(isize, isize)>::when(|x, y| x <= y).property(|x, y| std::cmp::max(x, y) == y);

    assert!(matches!(quicktest(prop), Ok(_)));
}

#[test]
fn sort() {
    fn prop(mut xs: Vec<isize>) -> bool {
        xs.sort_by(|x, y| x.cmp(y));
        let upto = if xs.len() == 0 { 0 } else { xs.len() - 1 };
        for i in 0..upto {
            if xs[i] > xs[i + 1] {
                return false;
            }
        }
        true
    }
    assert!(matches!(
        quicktest(Property::<(Vec<isize>,)>::new(prop as fn(Vec<isize>) -> bool)),
        Ok(_)
    ));
}

fn sieve(n: usize) -> Vec<usize> {
    if n <= 1 {
        return vec![];
    }

    let mut marked = vec![false; n + 1];
    marked[0] = true;
    marked[1] = true;
    marked[2] = true;
    for p in 2..n {
        for i in (2 * p..n).filter(|&n| n % p == 0) {
            marked[i] = true;
        }
    }
    marked
        .iter()
        .enumerate()
        .filter_map(|(i, &m)| if m { None } else { Some(i) })
        .collect()
}

fn is_prime(n: usize) -> bool {
    n != 0 && n != 1 && (2..).take_while(|i| i * i <= n).all(|i| n % i != 0)
}

#[test]
fn sieve_not_prime() {
    let prop_all_prime =
        Property::<(usize,)>::new(|n| sieve(n).into_iter().all(is_prime)).expect_failure();
    assert!(matches!(quicktest(prop_all_prime), Ok(_)));
}

#[test]
fn sieve_not_all_primes() {
    let prop_prime_iff_in_the_sieve =
        Property::<(usize,)>::new(|n| sieve(n) == (0..(n + 1)).filter(|&i| is_prime(i)).collect::<Vec<_>>())
            .expect_failure();
    assert!(matches!(quicktest(prop_prime_iff_in_the_sieve), Ok(_)));
}

#[test]
fn testable_result() {
    let prop = Property::<()>::new(|| -> Result<bool, String> { Ok(true) });
    assert!(matches!(quicktest(prop), Ok(_)));
}

#[test]
#[should_panic]
fn testable_result_err() {
    let prop = Property::<(i32,)>::new(|i: i32| -> Result<bool, i32> { Err(i) });
    match quicktest(prop) {
        Err(err) => panic!("Failed: {:?}", err),
        Ok(_) => {}
    }
}

#[test]
fn testable_result_err2() {
    let prop = Property::<(i32,)>::new(|i: i32| -> Result<bool, i32> { Err(i) }).expect_failure();
    assert!(matches!(quicktest(prop), Ok(_)));
}

#[test]
fn testable_unit() {
    let prop = Property::<()>::new(|| ());
    assert!(matches!(quicktest(prop), Ok(_)));
}

#[test]
#[should_panic]
fn failing_property() {
    fn all_equal1(x: isize, y: isize, z: isize) -> bool {
        (x == y) && (y == z)
    }
    fn all_equal2(x: isize, y: isize, z: isize) -> bool {
        2 * x == y + z
    }

    let prop =
        Property::<(isize, isize, isize)>::new(|x, y, z| all_equal1(x, y, z) == all_equal2(x, y, z));

    let mut qc = QuickCheck::new().max_size(5);
    match qc.quicktest(prop) {
        Err(err) => panic!("Failed: {:?}", err),
        Ok(_) => {}
    }
}

#[test]
fn failing_reverse_combine() {
    fn concat(xs: Vec<isize>, ys: Vec<isize>) -> Vec<isize> {
        xs.into_iter().chain(ys.into_iter()).collect()
    }
    fn reverse(xs: Vec<isize>) -> Vec<isize> {
        xs.into_iter().rev().collect()
    }

    fn reverse_combine(xs: Vec<isize>, ys: Vec<isize>) -> bool {
        reverse(concat(xs.clone(), ys.clone())) == concat(reverse(xs.clone()), reverse(ys.clone()))
    }

    let result = quicktest(Property::<(Vec<isize>, Vec<isize>)>::new(
        reverse_combine as fn(Vec<isize>, Vec<isize>) -> bool,
    ));
    match result {
        Err(QuickCheckError::Failure { ref input, .. }) => {
            // the minimum the prescribed search reaches: two single-element
            // lists with differing values, one of them zero
            let minimal = match input
                .strip_prefix("([")
                .and_then(|rest| rest.strip_suffix("])"))
                .and_then(|rest| rest.split_once("], ["))
            {
                Some((a, b)) => {
                    let single = |s: &str| !s.is_empty() && !s.contains(',');
                    single(a) && single(b) && a != b && (a == "0" || b == "0")
                }
                None => false,
            };
            assert!(
                minimal,
                "Didn't get the expected shrunk result.  Instead found {:?}",
                result
            );
        }
        _ => assert!(false, "Test didn't fail: {:?}", result),
    }
}
