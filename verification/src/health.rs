//! Readiness of the services the orchestrator depends on.
use vstd::prelude::*;

use crate::text::text_concat;

verus! {

/// Last known health of the listening engine, the speaking engine and the
/// signalling service.
#[derive(Debug, Clone, Copy)]
pub struct HealthStatus {
    pub listening_engine: bool,
    pub speaking_engine: bool,
    pub signal: bool,
}

impl Default for HealthStatus {
    /// Nothing is known to be healthy before the first check.
    fn default() -> (s: Self)
        ensures
            !s.listening_engine && !s.speaking_engine && !s.signal,
    {
        HealthStatus { listening_engine: false, speaking_engine: false, signal: false }
    }
}

impl HealthStatus {
    /// The orchestrator is ready when every dependency reported healthy.
    pub fn is_ready(&self) -> (ready: bool)
        ensures
            ready == (self.listening_engine && self.speaking_engine && self.signal),
    {
        self.listening_engine && self.speaking_engine && self.signal
    }
}

/// An engine is healthy when its health check answered that it is alive; a
/// failed check counts as unhealthy.
pub fn engine_check_healthy(answer: Option<bool>) -> (healthy: bool)
    ensures
        healthy == (answer == Some(true)),
{
    match answer {
        Some(alive) => alive,
        None => false,
    }
}

/// A success status: `200..=299`, the range `http::StatusCode::is_success` checks.
pub open spec fn is_success_status(code: u16) -> bool {
    200 <= code && code <= 299
}

/// The signalling service is healthy when its liveness endpoint answered
/// with a success status; a request that failed counts as unhealthy.
pub fn signal_check_healthy(status: Option<u16>) -> (healthy: bool)
    ensures
        healthy == (status matches Some(code) && is_success_status(code)),
{
    match status {
        Some(code) => 200 <= code && code <= 299,
        None => false,
    }
}

/// The signalling service's liveness endpoint.
pub fn signal_health_url(signal_http_url: &str) -> (url: String)
    ensures
        url@ == signal_http_url@ + "/health/live"@,
{
    text_concat(signal_http_url, "/health/live")
}

} // verus!
