use vstd::prelude::*;

verus! {

/// What the server asks the client to do after a failed exchange:
/// retry the operation, go through a fresh handshake first, or stop.
#[derive(Clone, Copy, Debug, PartialEq, Eq, Structural)]
pub enum Reconnect {
    /// The client should retry the failed operation.
    Retry,
    /// The client should re-handshake, then retry the failed operation.
    Handshake,
    /// The client should neither retry nor re-handshake.
    Never,
}

/// Reconnection advice attached by the server to a response. Only
/// `reconnect` drives the engine; the remaining fields are
/// informational and enforced by the transport, not by the engine.
#[derive(Clone, Debug, PartialEq)]
pub struct Advice {
    pub reconnect: Reconnect,
    pub timeout: Option<u32>,
    pub interval: Option<u32>,
    pub multiple_clients: Option<bool>,
    pub hosts: Option<Vec<String>>,
}

/// What the engine does about one failed response.
#[derive(Clone, Copy, Debug, PartialEq, Eq, Structural)]
pub enum Decision {
    /// Send a fresh handshake, then retry the failed operation; the
    /// handshake and the retried operation share one unit of budget.
    FollowHandshake,
    /// Retry the failed operation.
    FollowRetry,
    /// Surface the failure to the caller.
    GiveUp,
}

/// The advice interpreter: absent advice and `reconnect: never` are
/// terminal; `retry` and `handshake` are followed only while the
/// number of attempts already made stays within the budget, which
/// allows `max_retries + 1` attempts in total.
pub open spec fn spec_decide(advice: Option<Advice>, retry_count: u64, max_retries: u32) -> Decision {
    match advice {
        Option::None => Decision::GiveUp,
        Option::Some(a) => match a.reconnect {
            Reconnect::Never => Decision::GiveUp,
            Reconnect::Retry => if retry_count <= max_retries as u64 {
                Decision::FollowRetry
            } else {
                Decision::GiveUp
            },
            Reconnect::Handshake => if retry_count <= max_retries as u64 {
                Decision::FollowHandshake
            } else {
                Decision::GiveUp
            },
        },
    }
}

/// Lifts an optional borrowed advice to the value the spec speaks of.
pub open spec fn advice_value(advice: Option<&Advice>) -> Option<Advice> {
    match advice {
        Option::None => Option::None,
        Option::Some(a) => Option::Some(*a),
    }
}

/// Maps one failed response's advice and the retry budget to an
/// action, as `spec_decide` states.
pub fn decide(advice: Option<&Advice>, retry_count: u64, max_retries: u32) -> (d: Decision)
    ensures
        d == spec_decide(advice_value(advice), retry_count, max_retries),
{
    match advice {
        Option::None => Decision::GiveUp,
        Option::Some(a) => match a.reconnect {
            Reconnect::Never => Decision::GiveUp,
            Reconnect::Retry => if retry_count <= max_retries as u64 {
                Decision::FollowRetry
            } else {
                Decision::GiveUp
            },
            Reconnect::Handshake => if retry_count <= max_retries as u64 {
                Decision::FollowHandshake
            } else {
                Decision::GiveUp
            },
        },
    }
}

} // verus!
