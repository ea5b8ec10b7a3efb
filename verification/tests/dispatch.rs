use panicking::{
    intercept, intercept_support, panicking, resume_unwind, Config, Error, InterceptSupport,
    ReraiseAction, Strategy,
};

type PlainConfig = Config<fn() -> bool, fn(usize)>;

#[test]
fn intercept_returns_work_result_as_success() {
    let r: Result<u32, Error> = intercept(|| 42);
    assert!(matches!(r, Ok(42)));
}

#[test]
fn intercept_moves_captured_state() {
    let greeting = String::from("fine");
    let r: Result<String, Error> = intercept(move || greeting);
    assert_eq!(r.unwrap(), "fine");
}

#[test]
fn query_stays_false_around_intercept() {
    let c: PlainConfig = Config::new(Strategy::HostRuntime);
    assert!(!panicking(&c, false));
    let r: Result<bool, Error> = intercept(|| true);
    assert!(matches!(r, Ok(true)));
    assert!(!panicking(&c, false));
}

#[test]
fn intercept_support_by_strategy() {
    assert_eq!(
        intercept_support(Strategy::HostRuntime),
        InterceptSupport::Captures
    );
    assert_eq!(
        intercept_support(Strategy::ExternalHook),
        InterceptSupport::Unavailable
    );
    assert_eq!(
        intercept_support(Strategy::AbortOnly),
        InterceptSupport::AlwaysSucceeds
    );
}

#[test]
fn reraise_under_host_runtime_resumes_with_same_payload() {
    let c: PlainConfig = Config::new(Strategy::HostRuntime);
    let a = resume_unwind(&c, Error::from_raw(7));
    assert_eq!(a, ReraiseAction::HostResume(7));
}

#[test]
fn reraise_under_external_hook_raises_with_same_payload() {
    let c: PlainConfig = Config::new(Strategy::ExternalHook);
    let a = resume_unwind(&c, Error::from_raw(9));
    assert_eq!(a, ReraiseAction::ExternalRaise(9));
}

#[test]
fn reraise_under_abort_only_terminates() {
    let c: PlainConfig = Config::new(Strategy::AbortOnly);
    let a = resume_unwind(&c, Error::from_raw(11));
    assert_eq!(a, ReraiseAction::Terminate);
}
