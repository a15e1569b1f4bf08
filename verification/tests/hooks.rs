//! The hooks as a build with live ghost state uses them.

use dst::GhostState;
use serde_json::Value;

/// Raises a violation the way a debug build does.
fn raise(violation: Option<String>) {
    if let Some(text) = violation {
        panic!("{}", text);
    }
}

fn count_details(n: i64) -> Value {
    let mut fields = serde_json::Map::new();
    fields.insert("n".to_string(), Value::from(n));
    Value::Object(fields)
}

// Uses only assertions that must not be violated here: `always`/`always_or_unreachable` with true
// conditions, existential `sometimes`, and `reachable`. `assert_unreachable` stands in a branch
// that is never taken.
#[test]
fn compiles_and_runs_in_all_configs() {
    dst::init();

    let mut seen = GhostState::new(|| 0i64);
    seen.mutate(|n| *n += 1);

    dst::__observe1(&seen, |n: &i64| {
        raise(dst::assert_always(
            *n >= 0,
            "seen count is never negative",
            Some(&count_details(*n)),
        ));
    });

    dst::__observe0(|| {
        raise(dst::assert_reachable("observation ran", None));
        raise(dst::assert_sometimes(true, "sometimes true", None));
        raise(dst::assert_always_or_unreachable(
            1 + 1 == 2,
            "arithmetic holds",
            None,
        ));
        if false {
            raise(dst::assert_unreachable("never reached in this test", None));
        }
    });

    let mut erased_seen = dst::erased::GhostState::new(|| 0i64);
    erased_seen.mutate(|n| *n += 1);
    dst::erased::__observe1(&erased_seen, |n: &i64| {
        raise(dst::assert_always(
            *n >= 0,
            "seen count is never negative",
            Some(&count_details(*n)),
        ));
    });
    dst::erased::__observe0(|| {
        raise(dst::assert_reachable("observation ran", None));
        raise(dst::assert_sometimes(true, "sometimes true", None));
        raise(dst::assert_always_or_unreachable(
            1 + 1 == 2,
            "arithmetic holds",
            None,
        ));
        if false {
            raise(dst::assert_unreachable("never reached in this test", None));
        }
    });
}

// A false `always` condition is raised from inside an observation.
#[test]
#[should_panic(expected = "`always` property violated")]
fn debug_always_violation_panics() {
    dst::__observe0(|| {
        raise(dst::assert_always(
            false,
            "always-false must panic in a debug build",
            None,
        ));
    });
}

// Reaching an `unreachable` site is raised from inside an observation.
#[test]
#[should_panic(expected = "`unreachable` site reached")]
fn debug_unreachable_panics() {
    dst::__observe0(|| {
        raise(dst::assert_unreachable(
            "reaching this must panic in a debug build",
            None,
        ));
    });
}

#[test]
fn init_may_be_repeated() {
    dst::init();
    dst::init();
}

#[test]
fn always_report_without_details() {
    assert_eq!(
        dst::assert_always(false, "balance is kept", None).as_deref(),
        Some("dst: `always` property violated: balance is kept")
    );
    assert_eq!(
        dst::__dst_debug_invariant(false, "", None).as_deref(),
        Some("dst: `always` property violated: ")
    );
}

#[test]
fn always_report_renders_details() {
    assert_eq!(
        dst::assert_always(false, "balance is kept", Some(&"a\"b")).as_deref(),
        Some("dst: `always` property violated: balance is kept (details: \"a\\\"b\")")
    );
    assert_eq!(
        dst::__dst_debug_invariant(false, "count", Some(&count_details(3))).as_deref(),
        Some("dst: `always` property violated: count (details: Object {\"n\": Number(3)})")
    );
}

#[test]
fn unreachable_report_with_and_without_details() {
    assert_eq!(
        dst::assert_unreachable("dead arm", None).as_deref(),
        Some("dst: `unreachable` site reached: dead arm")
    );
    assert_eq!(
        dst::__dst_debug_unreachable("dead arm", Some(&Some(7u8))).as_deref(),
        Some("dst: `unreachable` site reached: dead arm (details: Some(7))")
    );
}

fn rendering(text: &str, finished: bool) -> dst::assertion::Rendering {
    dst::assertion::Rendering {
        text: text.to_string(),
        finished,
    }
}

#[test]
fn reports_take_rendered_details() {
    assert_eq!(
        dst::assertion::always_report("m", Some(&rendering("d", true))),
        "dst: `always` property violated: m (details: d)"
    );
    assert_eq!(
        dst::assertion::always_report("m", None),
        "dst: `always` property violated: m"
    );
    assert_eq!(
        dst::assertion::unreachable_report("m", Some(&rendering("", true))),
        "dst: `unreachable` site reached: m (details: )"
    );
    assert_eq!(
        dst::assertion::unreachable_report("m", None),
        "dst: `unreachable` site reached: m"
    );
    assert_eq!(
        dst::assertion::always_report("m", Some(&rendering("d", false))),
        "dst: `always` property violated: m (details: d"
    );
}

#[test]
fn always_holds_where_the_condition_does() {
    assert_eq!(dst::assert_always(true, "m", None), None);
    assert_eq!(dst::assert_always(true, "m", Some(&1)), None);
    assert_eq!(dst::assert_always_or_unreachable(true, "m", None), None);
}

#[test]
fn always_variants_agree() {
    for condition in [true, false] {
        assert_eq!(
            dst::assert_always(condition, "m", Some(&[1, 2])),
            dst::assert_always_or_unreachable(condition, "m", Some(&[1, 2]))
        );
    }
}

#[test]
fn existential_properties_never_fail_at_a_site() {
    for condition in [true, false] {
        assert_eq!(dst::assert_sometimes(condition, "m", None), None);
        assert_eq!(dst::__dst_debug_existential(condition, "m", Some(&2)), None);
    }
    assert_eq!(dst::assert_reachable("m", None), None);
    assert_eq!(dst::__dst_debug_reachable("m", Some(&2)), None);
}

#[test]
fn reports_lead_with_the_message() {
    let text = dst::assert_always(false, "order kept", Some(&vec![3, 1])).unwrap();
    assert!(text.starts_with("dst: `always` property violated: order kept"));
    assert!(text.ends_with(" (details: [3, 1])"));
}

/// A value whose rendering gives up half-way.
struct Faulty;

impl std::fmt::Debug for Faulty {
    fn fmt(&self, f: &mut std::fmt::Formatter<'_>) -> std::fmt::Result {
        f.write_str("half")?;
        Err(std::fmt::Error)
    }
}

#[test]
fn report_breaks_off_where_the_details_do() {
    assert_eq!(
        dst::assert_always(false, "m", Some(&Faulty)).as_deref(),
        Some("dst: `always` property violated: m (details: half")
    );
    assert_eq!(
        dst::assert_unreachable("m", Some(&Faulty)).as_deref(),
        Some("dst: `unreachable` site reached: m (details: half")
    );
}

/// A value that must not be rendered.
struct Untouchable;

impl std::fmt::Debug for Untouchable {
    fn fmt(&self, _: &mut std::fmt::Formatter<'_>) -> std::fmt::Result {
        panic!("rendered");
    }
}

#[test]
fn details_are_rendered_only_for_a_report() {
    assert_eq!(dst::assert_always(true, "m", Some(&Untouchable)), None);
    assert_eq!(
        dst::assert_always_or_unreachable(true, "m", Some(&Untouchable)),
        None
    );
    assert_eq!(dst::assert_sometimes(false, "m", Some(&Untouchable)), None);
    assert_eq!(dst::assert_reachable("m", Some(&Untouchable)), None);
}
