use vstd::prelude::*;

verus! {

pub const MSG_NO_ADDRESS: &'static str = "Error fetching local address, but server did not return error";

pub const MSG_JOIN_FAILED: &'static str = "Could not join server thread";

pub const MSG_WAITER_DISCONNECTED: &'static str = "Error joining server thread (channel disconnected)";

pub const MSG_WAITER_FAILED: &'static str = "Could not join waiter thread";

pub const MSG_ADDRESS_NOT_RETURNED: &'static str = "Could not return address to parent thread";

#[verifier::external_type_specification]
#[verifier::external_body]
pub struct ExHyperError(hyper::Error);

/// Why a server could not start, or did not stop cleanly.
#[derive(Debug)]
pub enum ServerError {
    /// The HTTP transport failed to bind or to run.
    Hyper(hyper::Error),
    /// An internal invariant of the lifecycle was broken.
    Assertion(&'static str),
    /// A bounded join ran out of time; the server may still be running.
    Timeout,
}

impl From<hyper::Error> for ServerError {
    fn from(e: hyper::Error) -> (r: ServerError)
        ensures
            r == ServerError::Hyper(e),
    {
        ServerError::Hyper(e)
    }
}

impl vstd::std_specs::convert::FromSpecImpl<hyper::Error> for ServerError {
    open spec fn obeys_from_spec() -> bool {
        true
    }

    open spec fn from_spec(e: hyper::Error) -> ServerError {
        ServerError::Hyper(e)
    }
}

/// The error that `start` reports when the server did not publish its
/// address: the error the execution context stopped with, else the error it
/// sent in place of the address, else a broken invariant (it stopped cleanly
/// without an address).
pub fn startup_error(published: Option<ServerError>, stopped: Result<(), ServerError>) -> (r: ServerError)
    ensures
        stopped is Err ==> r == stopped->Err_0,
        stopped is Ok && published is Some ==> r == published->Some_0,
        stopped is Ok && published is None ==> r == ServerError::Assertion(MSG_NO_ADDRESS),
{
    match stopped {
        Err(e) => e,
        Ok(()) => match published {
            Some(e) => e,
            None => ServerError::Assertion(MSG_NO_ADDRESS),
        },
    }
}

/// What the execution context returns after a failed bind: nothing to report
/// where the starter received the bind error (`None`), else the error that
/// came back undelivered.
pub fn bind_failure_result(undelivered: Option<ServerError>) -> (r: Result<(), ServerError>)
    ensures
        undelivered is None ==> r is Ok,
        undelivered is Some ==> r == Err::<(), ServerError>(undelivered->Some_0),
{
    match undelivered {
        None => Ok(()),
        Some(e) => Err(e),
    }
}

/// What the execution context returns when its bound address could not be
/// handed to the starter: `None` where it was delivered.
pub fn address_handoff_result(delivered: bool) -> (r: Option<ServerError>)
    ensures
        delivered ==> r is None,
        !delivered ==> r == Some(ServerError::Assertion(MSG_ADDRESS_NOT_RETURNED)),
{
    if delivered {
        None
    } else {
        Some(ServerError::Assertion(MSG_ADDRESS_NOT_RETURNED))
    }
}

/// The result of joining the server's execution context: its own result, or
/// a broken invariant where it could not be joined (`None`).
pub fn join_result(joined: Option<Result<(), ServerError>>) -> (r: Result<(), ServerError>)
    ensures
        joined is Some ==> r == joined->Some_0,
        joined is None ==> r == Err::<(), ServerError>(ServerError::Assertion(MSG_JOIN_FAILED)),
{
    match joined {
        Some(res) => res,
        None => Err(ServerError::Assertion(MSG_JOIN_FAILED)),
    }
}

/// What a join bounded by a deadline observed.
pub enum TimedWait {
    /// The deadline passed before the context stopped.
    TimedOut,
    /// The waiter went away without reporting.
    Disconnected,
    /// The waiter reported, but could not itself be joined.
    WaiterFailed,
    /// The context stopped in time, with this result.
    Finished(Result<(), ServerError>),
}

/// The result of `join_timeout`: the context's own result when it stopped in
/// time, a timeout error of its own kind when the deadline passed, and a
/// broken invariant when the waiter failed.
pub fn timed_join_result(wait: TimedWait) -> (r: Result<(), ServerError>)
    ensures
        wait is Finished ==> r == wait->Finished_0,
        wait is TimedOut ==> r == Err::<(), ServerError>(ServerError::Timeout),
        wait is Disconnected ==> r == Err::<(), ServerError>(ServerError::Assertion(MSG_WAITER_DISCONNECTED)),
        wait is WaiterFailed ==> r == Err::<(), ServerError>(ServerError::Assertion(MSG_WAITER_FAILED)),
{
    match wait {
        TimedWait::TimedOut => Err(ServerError::Timeout),
        TimedWait::Disconnected => Err(ServerError::Assertion(MSG_WAITER_DISCONNECTED)),
        TimedWait::WaiterFailed => Err(ServerError::Assertion(MSG_WAITER_FAILED)),
        TimedWait::Finished(res) => res,
    }
}

} // verus!
