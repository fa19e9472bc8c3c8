use persil::registry::Registry;
use persil::InitError;
use persil::Profiler;
use persil::TraceError;

#[test]
fn scenario_one_interval() {
    let mut registry = Registry::new();
    registry.try_initialize_with_path("/tmp/persil-trace/t1").unwrap();
    registry.enable();
    let guard = registry.trace("parse", "expr", 1);
    assert!(guard.is_active());
    assert_eq!(registry.events_opened(), 1);
    assert_eq!(registry.events_recorded(), 0);
    registry.finish(guard);
    assert_eq!(registry.events_recorded(), 1);
}

#[test]
#[should_panic]
fn panic_if_not_init() {
    let mut registry = Registry::new();
    registry.try_trace("foo", "bar", 1).unwrap();
}

#[test]
fn trace_without_session_reports_not_initialized() {
    let mut registry = Registry::new();
    let err = match registry.try_trace("foo", "bar", 1) {
        Ok(_) => panic!("trace succeeded without a session"),
        Err(e) => e,
    };
    assert!(matches!(err, TraceError::NotInitialized));
    assert_eq!(err.describe(), "trace called before a recording session was initialized");
}

#[test]
fn second_initialization_fails_and_keeps_the_winner() {
    let mut registry = Registry::new();
    registry.try_initialize_with_path("/tmp/persil-trace/t2").unwrap();
    let err = registry.try_initialize_with_path("/tmp/persil-trace/t2-loser").unwrap_err();
    assert!(matches!(err, InitError::AlreadyInitialized));
    assert_eq!(err.describe(), "a recording session is already initialized");
    registry.enable();
    let guard = registry.trace("parse", "expr", 1);
    assert!(guard.is_active());
    registry.finish(guard);
    assert_eq!(registry.events_recorded(), 1);
}

#[test]
fn disabled_tracing_persists_no_events() {
    let mut registry = Registry::new();
    registry.try_initialize_with_path("/tmp/persil-trace/t3").unwrap();
    registry.enable();
    registry.disable();
    let g1 = registry.trace("parse", "expr", 1);
    let g2 = registry.trace("check", "types", 2);
    let g3 = registry.trace("parse", "expr", 3);
    assert!(!g1.is_active());
    assert!(!g2.is_active());
    assert!(!g3.is_active());
    registry.finish(g1);
    registry.finish(g2);
    registry.finish(g3);
    assert_eq!(registry.events_opened(), 0);
    assert_eq!(registry.events_recorded(), 0);
}

#[test]
fn enabling_takes_effect_for_later_guards() {
    let mut registry = Registry::new();
    registry.try_initialize_with_path("/tmp/persil-trace/t4").unwrap();
    let before = registry.trace("parse", "expr", 1);
    assert!(!before.is_active());
    registry.enable();
    let after = registry.trace("parse", "expr", 7);
    assert!(after.is_active());
    registry.finish(before);
    registry.finish(after);
    assert_eq!(registry.events_recorded(), 1);
}

#[test]
fn enabling_before_initialization_is_legal() {
    let mut registry = Registry::new();
    registry.enable();
    assert!(registry.is_enabled());
    registry.try_initialize_with_path("/tmp/persil-trace/t5").unwrap();
    let guard = registry.trace("parse", "expr", 1);
    assert!(guard.is_active());
    registry.finish(guard);
    assert_eq!(registry.events_recorded(), 1);
}

#[test]
fn guard_finalizes_exactly_once() {
    let mut registry = Registry::new();
    registry.try_initialize_with_path("/tmp/persil-trace/t6").unwrap();
    registry.enable();
    {
        let guard = registry.trace("parse", "expr", 1);
        registry.finish(guard);
        // The guard was consumed by the explicit finalization, so the end of
        // its scope has nothing left to finalize.
    }
    assert_eq!(registry.events_recorded(), 1);
}

#[test]
fn factorial_function() {
    fn factorial(mut n: u64) -> u64 {
        let mut p = 1;
        while n > 1 {
            p *= n;
            n -= 1;
        }
        p
    }

    let mut registry = Registry::new();
    registry.try_initialize_with_path("/tmp/persil-trace/tests-app").unwrap();
    registry.enable();
    let guard = registry.trace("calculations", "factorial", 1);
    let result = factorial(10);
    registry.finish(guard);
    assert_eq!(result, 3628800);
    assert_eq!(registry.events_recorded(), 1);
}

#[test]
fn event_identity_is_a_pure_function_of_content() {
    let first = persil::profiler::event_identity("factorial");
    let other = persil::profiler::event_identity("unrelated");
    let second = persil::profiler::event_identity("factorial");
    assert_eq!(first, second);
    assert_ne!(first, other);
    // Exact fold value: the identity of "expr" under the content hash.
    assert_eq!(persil::profiler::event_identity("expr"), 0xe7ed55608ec45b4e);
    // Independent of session state and interning order: sessions that have
    // interned different contents derive the same identity.
    let mut registry = Registry::new();
    registry.try_initialize_with_path("/tmp/persil-trace/t7").unwrap();
    registry.enable();
    let guard = registry.trace("other", "unrelated", 1);
    registry.finish(guard);
    assert_eq!(persil::profiler::event_identity("factorial"), first);
}

#[test]
fn profiler_traces_directly() {
    let mut profiler = Profiler::from_path("/tmp/persil-trace/t8").unwrap();
    assert!(!profiler.is_enabled());
    assert_eq!(profiler.destination(), "/tmp/persil-trace/t8");
    profiler.enable();
    assert!(profiler.is_enabled());
    let guard = profiler.trace("parse", "expr", 3);
    assert!(guard.is_active());
    profiler.finish(guard);
    assert_eq!(profiler.events_opened(), 1);
    assert_eq!(profiler.events_recorded(), 1);
    profiler.disable();
    let idle = profiler.trace("parse", "expr", 3);
    assert!(!idle.is_active());
    profiler.finish(idle);
    assert_eq!(profiler.events_recorded(), 1);
}

#[test]
fn backend_failure_is_reported() {
    let err = match Profiler::from_path("/dev/null/nested/stem") {
        Ok(_) => panic!("backend creation succeeded where it cannot"),
        Err(e) => e,
    };
    assert!(matches!(err, InitError::BackendCreationFailure(_)));
}

#[test]
fn trace_path_formula() {
    assert_eq!(persil::profiler::trace_path("app", 7), "./trace/app-7");
    assert_eq!(persil::profiler::trace_path("tests-app", 4242), "./trace/tests-app-4242");
}

#[test]
fn decimal_digits_exact() {
    assert_eq!(persil::profiler::u64_digits(0), "0");
    assert_eq!(persil::profiler::u64_digits(10), "10");
    assert_eq!(persil::profiler::u64_digits(90210), "90210");
    assert_eq!(persil::profiler::u64_digits(u64::MAX), "18446744073709551615");
}
