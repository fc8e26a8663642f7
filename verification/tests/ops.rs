use moreops::none;
use moreops::Apply12Ops;
use moreops::Apply1Ops;
use moreops::Apply2Ops;
use moreops::Apply3Ops;
use moreops::BoolOps;
use moreops::OptionOps;
use moreops::ResultExt;
use moreops::ResultOps;
use moreops::TapOps;
use moreops::TupleOps;
use std::cell::Cell;

#[test]
fn it_works() {
    assert_eq!(1.some(), Some(1));
    assert_eq!(none::<i32>(), None);

    assert_eq!(true.option(1), Some(1));
    assert_eq!(false.option(1), None);

    assert_eq!(
        1.tap(|&n| {
            assert_eq!(n, 1);
            2
        }),
        1
    );

    assert_eq!(123.ok().swap(), 123.err());

    assert_eq!(123.once(), (123,));
    assert_eq!(123.twice(), (123, 123));
    assert_eq!(123.thrice(), (123, 123, 123));

    assert_eq!((2, 3).apply(::std::ops::Mul::mul), 6);
}

#[test]
fn wrap_some_holds_the_value() {
    let wrapped = String::from("hello").some();
    assert_eq!(wrapped, Some(String::from("hello")));
    assert_eq!(0u8.some(), Some(0u8));
}

#[test]
fn none_is_absent() {
    assert_eq!(none::<String>(), None);
    assert_eq!(none::<(u8, bool)>(), None);
}

#[test]
fn bool_to_option_follows_the_flag() {
    assert_eq!(true.option("yes"), Some("yes"));
    assert_eq!(false.option("yes"), None);
    assert_eq!(true.option(String::from("owned")), Some(String::from("owned")));
}

#[test]
fn wrap_ok_and_err_pick_their_branch() {
    assert_eq!(7.ok(), Ok::<i32, ()>(7));
    assert_eq!(String::from("oops").err(), Err::<(), String>(String::from("oops")));
}

#[test]
fn swap_exchanges_the_branches() {
    assert_eq!(123.ok().swap(), 123.err());
    let r: Result<i32, String> = Ok(5);
    assert_eq!(r.swap(), Err::<String, i32>(5));
    let e: Result<i32, String> = Err(String::from("bad"));
    assert_eq!(e.swap(), Ok::<String, i32>(String::from("bad")));
}

#[test]
fn swap_twice_is_identity() {
    assert_eq!(123.ok().swap().swap(), 123.ok());
    let e: Result<i32, String> = Err(String::from("bad"));
    assert_eq!(e.clone().swap().swap(), e);
}

#[test]
fn tap_runs_the_observer_once_and_passes_through() {
    let calls = Cell::new(0u32);
    let seen = Cell::new(0i32);
    let out = 41.tap(|&n| {
        calls.set(calls.get() + 1);
        seen.set(n);
    });
    assert_eq!(out, 41);
    assert_eq!(calls.get(), 1);
    assert_eq!(seen.get(), 41);
}

#[test]
fn chain_applies_the_transformation() {
    assert_eq!(21.chain(|x: i32| x * 2), 42);
    let shouted = String::from("hi").chain(|s: String| s + "!");
    assert_eq!(shouted, String::from("hi!"));
}

#[test]
fn replication_fills_every_slot() {
    assert_eq!(5.once(), (5,));
    assert_eq!(5.twice(), (5, 5));
    assert_eq!(5.thrice(), (5, 5, 5));
    let s = String::from("dup");
    assert_eq!(s.clone().twice(), (s.clone(), s.clone()));
    assert_eq!(s.clone().thrice(), (s.clone(), s.clone(), s.clone()));
}

#[test]
fn free_replication_matches_the_methods() {
    assert_eq!(moreops::once(9), (9,));
    assert_eq!(moreops::twice(9), (9, 9));
    assert_eq!(moreops::thrice(9), (9, 9, 9));
}

#[test]
fn apply_unpacks_in_order() {
    assert_eq!((2, 3).apply(|a, b| a * b), 6);
    assert_eq!((2, 3, 4).apply(|a, b, c| a * b * c), 24);
    assert_eq!((10,).apply(|a: i32| a + 1), 11);
    assert_eq!((2, 3).apply(|a, b| a - b), -1);
    assert_eq!(
        (1, 2, 3, 4, 5, 6, 7, 8, 9, 10, 11, 12)
            .apply(|a, b, c, d, e, f, g, h, i, j, k, l| a + b + c + d + e + f + g + h + i + j + k + l),
        78
    );
}

#[test]
fn even_check_end_to_end() {
    let x = 42;
    let answer = (x % 2 == 0).option("even").unwrap_or("odd");
    assert_eq!(answer, "even");
    let y = 7;
    let other = (y % 2 == 0).option("even").unwrap_or("odd");
    assert_eq!(other, "odd");
}
