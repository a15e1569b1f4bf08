//! Ghost state, live and erased, and the modes that choose between them.

use dst::{erased, live, Mode};
use std::cell::{Cell, RefCell};

#[test]
fn live_observation_reads_the_initial_value() {
    let state = live::GhostState::new(|| "start".to_string());
    let read = RefCell::new(String::new());
    live::__observe1(&state, |s: &String| read.borrow_mut().push_str(s));
    assert_eq!(read.into_inner(), "start");
}

#[test]
fn live_mutations_accumulate_in_order() {
    let mut state = live::GhostState::new(|| 5i64);
    state.mutate(|n| *n += 1);
    state.mutate(|n| *n *= 10);
    let read = Cell::new(0i64);
    live::__observe1(&state, |n: &i64| read.set(*n));
    assert_eq!(read.get(), 60);
}

#[test]
fn live_readings_repeat_after_any_number_of_mutations() {
    let mut state = live::GhostState::new(Vec::new);
    let mut made = Vec::new();
    for step in 0..20 {
        state.mutate(|v| v.push(step));
        made.push(step);
        let first = RefCell::new(Vec::<i32>::new());
        let second = RefCell::new(Vec::<i32>::new());
        live::__observe1(&state, |v: &Vec<i32>| first.borrow_mut().extend(v));
        live::__observe1(&state, |v: &Vec<i32>| second.borrow_mut().extend(v));
        assert_eq!(first.into_inner(), made);
        assert_eq!(second.into_inner(), made);
    }
}

#[test]
fn live_closures_run_once() {
    let runs = Cell::new(0);
    let mut state = live::GhostState::new(|| runs.set(runs.get() + 1));
    assert_eq!(runs.get(), 1);
    state.mutate(|_| runs.set(runs.get() + 1));
    assert_eq!(runs.get(), 2);
    live::__observe0(|| runs.set(runs.get() + 1));
    assert_eq!(runs.get(), 3);
    live::__observe1(&state, |_: &()| runs.set(runs.get() + 1));
    assert_eq!(runs.get(), 4);
}

#[test]
fn live_observation_keeps_the_order_of_its_states() {
    let a = live::GhostState::new(|| 1u8);
    let b = live::GhostState::new(|| 2u16);
    let c = live::GhostState::new(|| 3u32);
    let d = live::GhostState::new(|| 4u64);
    let read = RefCell::new(Vec::new());
    live::__observe2(&a, &b, |x: &u8, y: &u16| {
        read.borrow_mut().push(format!("{} {}", x, y));
    });
    live::__observe3(&a, &b, &c, |x: &u8, y: &u16, z: &u32| {
        read.borrow_mut().push(format!("{} {} {}", x, y, z));
    });
    live::__observe4(&a, &b, &c, &d, |x: &u8, y: &u16, z: &u32, w: &u64| {
        read.borrow_mut().push(format!("{} {} {} {}", x, y, z, w));
    });
    assert_eq!(read.into_inner(), vec!["1 2", "1 2 3", "1 2 3 4"]);
}

#[test]
fn live_state_is_compared_by_its_value() {
    let low = live::GhostState::new(|| 1);
    let high = live::GhostState::new(|| 2);
    assert!(low == low.clone());
    assert!(low != high);
    assert!(low < high);
    assert_eq!(low.max(high), high);
    assert_eq!(live::GhostState::<i32>::default(), live::GhostState::new(|| 0));
    assert_eq!(format!("{:?}", low), "GhostState(1)");
}

#[test]
fn live_partial_order_follows_the_value() {
    let nan = live::GhostState::new(|| f64::NAN);
    let one = live::GhostState::new(|| 1.0f64);
    assert!(nan.partial_cmp(&one).is_none());
    assert!(nan != nan);
}

#[test]
fn live_state_is_as_large_as_its_value() {
    assert_eq!(std::mem::size_of::<live::GhostState<u64>>(), 8);
}

#[test]
fn erased_closures_never_run() {
    let runs = Cell::new(0);
    let count = || runs.set(runs.get() + 1);
    let mut state = erased::GhostState::new(|| count());
    state.mutate(|_| count());
    erased::__observe0(|| count());
    erased::__observe1(&state, |_: &()| count());
    erased::__observe2(&state, &state, |_: &(), _: &()| count());
    erased::__observe3(&state, &state, &state, |_: &(), _: &(), _: &()| count());
    erased::__observe4(
        &state,
        &state,
        &state,
        &state,
        |_: &(), _: &(), _: &(), _: &()| count(),
    );
    assert_eq!(runs.get(), 0);
}

#[test]
fn erased_observation_raises_nothing() {
    erased::__observe0(|| panic!("observed"));
}

#[test]
fn erased_state_is_empty() {
    assert_eq!(std::mem::size_of::<erased::GhostState<[u64; 32]>>(), 0);
    let one = erased::GhostState::new(|| 1);
    let mut two = erased::GhostState::new(|| 2);
    two.mutate(|n| *n = 3);
    assert!(one == two);
    assert!(!(one < two));
    assert_eq!(one.cmp(&two), std::cmp::Ordering::Equal);
    assert_eq!(one, erased::GhostState::default());
    assert_eq!(two.clone(), one);
}

#[test]
fn every_build_has_one_mode() {
    assert_eq!(Mode::select(true, true), Mode::Sdk);
    assert_eq!(Mode::select(true, false), Mode::Sdk);
    assert_eq!(Mode::select(false, true), Mode::Debug);
    assert_eq!(Mode::select(false, false), Mode::Release);
}

#[test]
fn only_a_debug_build_asserts_locally() {
    assert!(Mode::Debug.asserts_locally());
    assert!(!Mode::Sdk.asserts_locally());
    assert!(!Mode::Release.asserts_locally());
}
