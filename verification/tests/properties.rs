use multi_try::MultiTry;

#[test]
fn both_failures_kept_in_call_order() {
    let a: Result<i32, &str> = Err("bad!");
    let b: Result<i32, &str> = Err("very bad!");
    assert_eq!(a.and_try(b).unwrap_err(), vec!["bad!", "very bad!"]);
}

#[test]
fn failing_first_operand_does_not_suppress_second() {
    let first: Result<i32, &str> = Err("first failed");
    let second: Result<u32, &str> = Err("second failed");
    let outcome = multi_try::and(first, second).finalize();
    assert_eq!(outcome, Err(vec!["first failed", "second failed"]));
}

#[test]
fn error_order_follows_call_order_not_identity() {
    let a: Result<i32, &str> = Err("ea");
    let b: Result<u32, &str> = Err("eb");
    let c: Result<i64, &str> = Err("ec");
    let abc = multi_try::and(a, b).and(c).finalize();
    assert_eq!(abc, Err(vec!["ea", "eb", "ec"]));

    let a: Result<i32, &str> = Err("ea");
    let b: Result<u32, &str> = Err("eb");
    let c: Result<i64, &str> = Err("ec");
    let bca = multi_try::and(b, c).and(a).finalize();
    assert_eq!(bca, Err(vec!["eb", "ec", "ea"]));
    assert_ne!(abc.unwrap_err(), bca.unwrap_err());
}

#[test]
fn and_try_chain_of_eight_successes() {
    let r = Ok::<u8, &str>(1)
        .and_try(Ok::<u16, &str>(2))
        .and_try(Ok::<u32, &str>(3))
        .and_try(Ok::<u64, &str>(4))
        .and_try(Ok::<i8, &str>(5))
        .and_try(Ok::<i16, &str>(6))
        .and_try(Ok::<i32, &str>(7))
        .and_try(Ok::<i64, &str>(8));
    assert_eq!(r, Ok((1u8, 2u16, 3u32, 4u64, 5i8, 6i16, 7i32, 8i64)));
}

#[test]
fn accumulator_chain_of_eight_with_scattered_failures() {
    let r = multi_try::and(Ok::<u8, &str>(1), Err::<u16, &str>("second"))
        .and(Ok::<u32, &str>(3))
        .and(Err::<u64, &str>("fourth"))
        .and(Ok::<i8, &str>(5))
        .and(Ok::<i16, &str>(6))
        .and(Err::<i32, &str>("seventh"))
        .and(Ok::<i64, &str>(8))
        .finalize();
    assert_eq!(r, Err(vec!["second", "fourth", "seventh"]));
}

#[test]
fn accumulator_chain_of_eight_successes() {
    let r = multi_try::and(Ok::<u8, &str>(1), Ok::<u16, &str>(2))
        .and(Ok::<u32, &str>(3))
        .and(Ok::<u64, &str>(4))
        .and(Ok::<i8, &str>(5))
        .and(Ok::<i16, &str>(6))
        .and(Ok::<i32, &str>(7))
        .and(Ok::<i64, &str>(8))
        .finalize();
    assert_eq!(r, Ok((1u8, 2u16, 3u32, 4u64, 5i8, 6i16, 7i32, 8i64)));
}

#[test]
fn and_try_starts_from_a_one_tuple_state() {
    let state: Result<(i32,), Vec<&str>> = Ok((1,));
    assert_eq!(state.and_try(Ok::<&str, &str>("two")), Ok((1, "two")));

    let state: Result<(i32,), Vec<&str>> = Ok((1,));
    assert_eq!(state.and_try(Err::<&str, &str>("oops")), Err(vec!["oops"]));
}

#[test]
fn later_success_does_not_recover_a_failed_chain() {
    let r = multi_try::and(Err::<i32, &str>("lost"), Ok::<u32, &str>(2))
        .and(Ok::<i64, &str>(3))
        .finalize();
    assert_eq!(r, Err(vec!["lost"]));
}

#[test]
fn prior_successes_are_discarded_once_a_failure_appears() {
    let r = Ok::<i32, &str>(1)
        .and_try(Ok::<u32, &str>(2))
        .and_try(Err::<i64, &str>("third failed"));
    assert_eq!(r, Err(vec!["third failed"]));
}

#[test]
fn finalizing_equal_states_yields_equal_outcomes() {
    let build = || {
        multi_try::and(Ok::<i32, &str>(1), Err::<u32, &str>("eb")).and(Ok::<i64, &str>(3))
    };
    let first = build().finalize();
    let second = build().finalize();
    assert_eq!(first, second);
    assert_eq!(first, Err(vec!["eb"]));

    let build_ok = || multi_try::and(Ok::<i32, &str>(1), Ok::<u32, &str>(2));
    assert_eq!(build_ok().finalize(), build_ok().finalize());
    assert_eq!(build_ok().finalize(), Ok((1, 2)));
}
