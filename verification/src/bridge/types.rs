//! The session data a backend gets from Bridge validation, and the client
//! details it forwards.

use vstd::prelude::*;

use crate::auth::types::User;
use crate::timestamp::Timestamp;

verus! {

/// A validated session, as a backend sees it.
#[derive(Debug, Clone, PartialEq)]
pub struct SessionData {
    pub user_id: String,
    pub email: String,
    pub name: Option<String>,
    pub user_type: Option<String>,
    pub organization_id: Option<String>,
    pub permissions: Vec<String>,
    pub expires_at: Option<Timestamp>,
    pub validated_at: Timestamp,
    pub user: Option<User>,
}

/// Details of the end client that a validation request carries.
#[derive(Debug, Clone, Default, PartialEq, Eq)]
pub struct ValidationOptions {
    pub ip: Option<String>,
    pub user_agent: Option<String>,
    pub device_id: Option<String>,
}

/// How many client details a validation checks.
#[derive(Debug, Clone, Copy, PartialEq, Eq)]
pub enum ValidationMode {
    /// None.
    Disabled,
    /// The IP address.
    Standard,
    /// The IP address and the user agent.
    Advanced,
    /// The IP address, the user agent and the device.
    Strict,
}

/// Whether a mode forwards the IP address, the user agent and the device.
pub open spec fn mode_forwards(mode: ValidationMode) -> (bool, bool, bool) {
    match mode {
        ValidationMode::Disabled => (false, false, false),
        ValidationMode::Standard => (true, false, false),
        ValidationMode::Advanced => (true, true, false),
        ValidationMode::Strict => (true, true, true),
    }
}

impl ValidationMode {
    /// The options a validation in this mode sends: each detail the mode
    /// checks, as given, and nothing for the others.
    pub fn build_options(self, ip: Option<String>, user_agent: Option<String>, device_id: Option<String>) -> (r: ValidationOptions)
        ensures
            r.ip == if mode_forwards(self).0 { ip } else { None },
            r.user_agent == if mode_forwards(self).1 { user_agent } else { None },
            r.device_id == if mode_forwards(self).2 { device_id } else { None },
    {
        match self {
            ValidationMode::Disabled => ValidationOptions { ip: None, user_agent: None, device_id: None },
            ValidationMode::Standard => ValidationOptions { ip, user_agent: None, device_id: None },
            ValidationMode::Advanced => ValidationOptions { ip, user_agent, device_id: None },
            ValidationMode::Strict => ValidationOptions { ip, user_agent, device_id },
        }
    }
}

/// A stricter mode forwards every detail a laxer one does.
pub proof fn lemma_stricter_mode_forwards_more(a: ValidationMode, b: ValidationMode)
    requires
        mode_rank(a) <= mode_rank(b),
    ensures
        mode_forwards(a).0 ==> mode_forwards(b).0,
        mode_forwards(a).1 ==> mode_forwards(b).1,
        mode_forwards(a).2 ==> mode_forwards(b).2,
{
}

/// The modes from lax to strict.
pub open spec fn mode_rank(mode: ValidationMode) -> nat {
    match mode {
        ValidationMode::Disabled => 0,
        ValidationMode::Standard => 1,
        ValidationMode::Advanced => 2,
        ValidationMode::Strict => 3,
    }
}

} // verus!
