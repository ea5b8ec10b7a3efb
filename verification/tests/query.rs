use panicking::{panicking, Config, Strategy};

type PlainConfig = Config<fn() -> bool, fn(usize)>;

#[test]
fn fresh_host_runtime_reports_not_unwinding() {
    let c: PlainConfig = Config::new(Strategy::HostRuntime);
    assert!(!panicking(&c, false));
}

#[test]
fn fresh_external_hook_reports_not_unwinding() {
    let c: PlainConfig = Config::new(Strategy::ExternalHook);
    assert!(!panicking(&c, false));
}

#[test]
fn fresh_abort_only_reports_not_unwinding() {
    let c: PlainConfig = Config::new(Strategy::AbortOnly);
    assert!(!panicking(&c, false));
}

#[test]
fn host_runtime_reflects_ambient_report() {
    let c: PlainConfig = Config::new(Strategy::HostRuntime);
    assert!(panicking(&c, true));
    assert!(!panicking(&c, false));
}

#[test]
fn external_hook_reflects_ambient_report() {
    let c: PlainConfig = Config::new(Strategy::ExternalHook);
    assert!(panicking(&c, true));
    assert!(!panicking(&c, false));
}

#[test]
fn abort_only_ignores_ambient_report() {
    let c: PlainConfig = Config::new(Strategy::AbortOnly);
    assert!(!panicking(&c, true));
    assert!(!panicking(&c, false));
}

#[test]
fn always_true_override_governs_query() {
    let mut c: PlainConfig = Config::new(Strategy::AbortOnly);
    c.set_panicking_callback(|| true);
    assert!(panicking(&c, false));
    assert!(panicking(&c, true));
}

#[test]
fn always_false_override_governs_query() {
    let mut c: PlainConfig = Config::new(Strategy::HostRuntime);
    c.set_panicking_callback(|| false);
    assert!(!panicking(&c, true));
}

#[test]
fn last_registered_override_wins() {
    let mut c: PlainConfig = Config::new(Strategy::AbortOnly);
    c.set_panicking_callback(|| false);
    c.set_panicking_callback(|| true);
    assert!(panicking(&c, false));
    let mut d: PlainConfig = Config::new(Strategy::HostRuntime);
    d.set_panicking_callback(|| true);
    d.set_panicking_callback(|| false);
    assert!(!panicking(&d, true));
}

#[test]
fn registration_is_observable() {
    let mut c: PlainConfig = Config::new(Strategy::ExternalHook);
    assert!(!c.has_query_override());
    assert!(!c.has_raise_override());
    c.set_panicking_callback(|| false);
    assert!(c.has_query_override());
    assert!(!c.has_raise_override());
    c.set_panic_callback(|_message: usize| ());
    assert!(c.has_raise_override());
    assert_eq!(c.strategy(), Strategy::ExternalHook);
}
