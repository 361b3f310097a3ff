use stubby::lifecycle::{
    address_handoff_result, bind_failure_result, join_result, startup_error, timed_join_result, ServerError,
    TimedWait, MSG_ADDRESS_NOT_RETURNED, MSG_JOIN_FAILED, MSG_NO_ADDRESS, MSG_WAITER_DISCONNECTED,
    MSG_WAITER_FAILED,
};

fn is_assertion(e: &ServerError, msg: &str) -> bool {
    matches!(e, ServerError::Assertion(m) if *m == msg)
}

#[test]
fn startup_error_prefers_context_error() {
    let e = startup_error(Some(ServerError::Assertion("bind")), Err(ServerError::Assertion("stop")));
    assert!(is_assertion(&e, "stop"));
}

#[test]
fn startup_error_reports_published_error_after_clean_stop() {
    let e = startup_error(Some(ServerError::Assertion("bind")), Ok(()));
    assert!(is_assertion(&e, "bind"));
}

#[test]
fn startup_error_reports_stop_error() {
    let e = startup_error(None, Err(ServerError::Assertion("stop")));
    assert!(is_assertion(&e, "stop"));
}

#[test]
fn startup_error_clean_stop_without_address() {
    let e = startup_error(None, Ok(()));
    assert!(is_assertion(&e, MSG_NO_ADDRESS));
}

#[test]
fn startup_error_keeps_transport_error() {
    let e = startup_error(Some(ServerError::from(hyper::Error::Incomplete)), Ok(()));
    assert!(matches!(e, ServerError::Hyper(hyper::Error::Incomplete)));
}

#[test]
fn join_result_passes_context_result() {
    assert!(join_result(Some(Ok(()))).is_ok());
    let r = join_result(Some(Err(ServerError::Assertion("inner"))));
    assert!(is_assertion(&r.unwrap_err(), "inner"));
    let r = join_result(None);
    assert!(is_assertion(&r.unwrap_err(), MSG_JOIN_FAILED));
}

#[test]
fn timed_join_outcomes() {
    assert!(timed_join_result(TimedWait::Finished(Ok(()))).is_ok());
    assert!(matches!(timed_join_result(TimedWait::TimedOut), Err(ServerError::Timeout)));
    assert!(is_assertion(&timed_join_result(TimedWait::Disconnected).unwrap_err(), MSG_WAITER_DISCONNECTED));
    assert!(is_assertion(&timed_join_result(TimedWait::WaiterFailed).unwrap_err(), MSG_WAITER_FAILED));
    let r = timed_join_result(TimedWait::Finished(Err(ServerError::Assertion("inner"))));
    assert!(is_assertion(&r.unwrap_err(), "inner"));
}

#[test]
fn bind_failure_outcomes() {
    assert!(bind_failure_result(None).is_ok());
    let r = bind_failure_result(Some(ServerError::Assertion("bind")));
    assert!(is_assertion(&r.unwrap_err(), "bind"));
}

#[test]
fn address_handoff_outcomes() {
    assert!(address_handoff_result(true).is_none());
    let e = address_handoff_result(false).unwrap();
    assert!(is_assertion(&e, MSG_ADDRESS_NOT_RETURNED));
}
