//! The user-submitted provisioning request and the process-wide deployment mode.

use vstd::prelude::*;

verus! {

/// One virtual-machine provisioning request, as collected from the submission
/// form. Constructed at request time, consumed once by the orchestrator, and
/// never persisted. The CAPTCHA response token is opaque and single-use from
/// the verifier's point of view; the honeypot flag is carried but not read by
/// the orchestration logic.
pub struct VmRequest {
    pub ethz_email: String,
    pub external_email: String,
    pub os: String,
    pub ssh_keys: String,
    pub hostname: String,
    pub cores: u32,
    pub ram: u32,
    pub disk: u32,
    pub wishes: Option<String>,
    pub bot: bool,
    pub h_captcha_response: String,
}

/// Process-wide deployment mode, read once at startup. It changes the
/// notification subject line and gates whether the admin surface may mount.
#[derive(PartialEq, Eq, Structural, Clone, Copy, Debug)]
pub enum Deployment {
    Test,
    Prod,
}

impl Deployment {
    pub fn is_test(&self) -> (r: bool)
        ensures
            r <==> *self is Test,
    {
        *self == Deployment::Test
    }

    pub fn is_prod(&self) -> (r: bool)
        ensures
            r <==> *self is Prod,
    {
        *self == Deployment::Prod
    }
}

} // verus!
