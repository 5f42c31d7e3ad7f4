//! Reading and setting the safety policy.

use crate::engine::types::opt_view;
use crate::policy::SafetyPolicy;
use vstd::prelude::*;
use vstd::string::*;

verus! {

/// The outcome of reading or setting the policy, as the caller is told.
#[derive(Debug)]
pub struct SafetyPolicyResponse {
    pub success: bool,
    pub policy: Option<SafetyPolicy>,
    pub error: Option<String>,
}

impl SafetyPolicyResponse {
    /// The policy in force.
    pub fn get_safety_policy(policy: &SafetyPolicy) -> (r: Self)
        ensures
            r.success,
            r.policy == Some(*policy),
            r.error is None,
    {
        SafetyPolicyResponse { success: true, policy: Some(*policy), error: None }
    }

    /// The outcome of setting the policy, given how storing it went and
    /// what the policy in force is after storing and loading again. The
    /// policy in force is reported, which a value from the environment
    /// may make differ from the one that was stored.
    pub fn set_safety_policy(stored: Result<(), String>, effective: &SafetyPolicy) -> (r: Self)
        ensures
            match stored {
                Ok(_) => r.success && r.policy == Some(*effective) && r.error is None,
                Err(m) => !r.success && r.policy is None && opt_view(r.error) == Some(m@),
            },
    {
        match stored {
            Ok(_) => SafetyPolicyResponse { success: true, policy: Some(*effective), error: None },
            Err(m) => SafetyPolicyResponse { success: false, policy: None, error: Some(m) },
        }
    }
}

} // verus!
