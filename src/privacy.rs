use vstd::prelude::*;

verus! {

/// How much of the traffic stayed on the machine.
#[derive(Debug, Clone)]
pub struct PrivacyScore {
    pub score: u32,
    pub local_messages: u64,
    pub cloud_messages: u64,
    pub redacted_messages: u64,
    pub total_messages: u64,
    pub recommendations: Vec<String>,
}

/// The score shown while the gateway cannot be reached: nothing has left
/// the machine, so the score is full and every count is zero.
pub fn disconnected_privacy_score() -> (r: PrivacyScore)
    ensures
        r.score == 100,
        r.local_messages == 0 && r.cloud_messages == 0,
        r.redacted_messages == 0 && r.total_messages == 0,
        r.recommendations@.len() == 1,
        r.recommendations@[0]@ == "Gateway not connected - all data stays local by default"@,
{
    let mut recommendations: Vec<String> = Vec::new();
    recommendations.push("Gateway not connected - all data stays local by default".to_owned());
    PrivacyScore {
        score: 100,
        local_messages: 0,
        cloud_messages: 0,
        redacted_messages: 0,
        total_messages: 0,
        recommendations,
    }
}

} // verus!
