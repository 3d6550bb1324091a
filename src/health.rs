use vstd::prelude::*;

verus! {

/// Where the gateway answers its health check.
pub const GATEWAY_HEALTH_URL: &'static str = "http://127.0.0.1:18789/health";

/// Where the model daemon answers.
pub const OLLAMA_BASE_URL: &'static str = "http://localhost:11434";

/// How long one health probe may take, in milliseconds.
pub const PROBE_TIMEOUT_MS: u64 = 1000;

/// Why a health probe got no response.
#[derive(Debug, Clone, Copy, PartialEq, Eq)]
pub enum ProbeError {
    /// No response came within the probe's time limit.
    ProbeTimeout,
    /// The endpoint could not be reached at all.
    ProbeUnreachable,
}

/// An HTTP status in the success class.
pub open spec fn is_success_status(status: u16) -> bool {
    200 <= status && status < 300
}

/// The verdict of one health probe: a response arrived and its status is a
/// success. A timeout, an unreachable endpoint and an error status all give
/// `false`.
pub fn probe_verdict(outcome: &Result<u16, ProbeError>) -> (r: bool)
    ensures
        r == (outcome is Ok && is_success_status(outcome->Ok_0)),
{
    match outcome {
        Ok(status) => 200 <= *status && *status < 300,
        Err(_) => false,
    }
}

} // verus!
