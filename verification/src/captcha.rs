//! Classification of a CAPTCHA verification attempt.
//!
//! The verification call itself is an HTTPS POST of the configured secret and
//! the user-supplied response token to the provider's `siteverify` endpoint;
//! that call is network I/O and is made by the surrounding program, which
//! hands this module the transport outcome: the HTTP status on success, or a
//! description of the transport-level failure. Success is judged by the HTTP
//! status class alone; the provider's structured response body is never
//! inspected. That is a deliberate simplification carried over unchanged, and
//! a likely latent correctness gap: a provider may answer 200 with a body that
//! reports the token as invalid.

use vstd::prelude::*;

verus! {

/// The classified result of one verification attempt. `Rejected` is a
/// well-formed "not verified" answer from the provider; `VerificationFailed`
/// is a provider or transport error and carries its description.
#[derive(Debug)]
pub enum CaptchaOutcome {
    Accepted,
    Rejected,
    VerificationFailed(String),
}

/// An HTTP status in the success class.
pub open spec fn spec_status_success(status: u16) -> bool {
    200 <= status < 300
}

/// Whether a transport outcome counts as an accepted verification:
/// the call went through and the provider answered with a success status.
pub open spec fn spec_verification_accepted(t: &Result<u16, String>) -> bool {
    t matches Ok(s) && spec_status_success(*s)
}

/// Classifies the transport outcome of one verification call.
/// No retry, no caching: the classification is a function of this call's
/// outcome alone.
pub fn classify_verification(transport: Result<u16, String>) -> (r: CaptchaOutcome)
    ensures
        r is Accepted <==> spec_verification_accepted(&transport),
        r is Rejected <==> (transport matches Ok(s) && !spec_status_success(s)),
        r is VerificationFailed <==> transport is Err,
        transport matches Err(e) ==> r matches CaptchaOutcome::VerificationFailed(m) && m == e,
{
    match transport {
        Ok(status) => {
            if 200 <= status && status < 300 {
                CaptchaOutcome::Accepted
            } else {
                CaptchaOutcome::Rejected
            }
        },
        Err(e) => CaptchaOutcome::VerificationFailed(e),
    }
}

/// The verifier keeps no state between calls: each classification depends
/// only on that call's own transport outcome. In particular, two calls with
/// the same token against a provider that reports success both times are
/// both accepted.
pub proof fn lemma_verification_idempotent(t1: &Result<u16, String>, t2: &Result<u16, String>)
    requires
        t1 matches Ok(s1) && spec_status_success(*s1),
        t2 matches Ok(s2) && spec_status_success(*s2),
    ensures
        spec_verification_accepted(t1),
        spec_verification_accepted(t2),
{
}

} // verus!
