//! The per-submission orchestrator.
//!
//! One instance of the pipeline runs per incoming submission and is terminal
//! after one pass: verify the CAPTCHA, then — only on acceptance — attempt
//! exactly one notification send, then redirect. The two outbound calls are
//! network I/O made by the surrounding program; this module holds the
//! decisions between them, as a function from each step's event to the next
//! action. No step is retried.

use crate::captcha::CaptchaOutcome;
use vstd::prelude::*;

verus! {

/// The single outward result of handling one submission.
/// `SuccessRedirect` is a redirect to the fixed confirmation page;
/// `Forbidden` (HTTP 403) is the only client-attributable outcome;
/// `InternalError` (HTTP 500) covers every internal failure.
#[derive(PartialEq, Eq, Structural, Clone, Copy, Debug)]
pub enum OutwardResult {
    SuccessRedirect,
    Forbidden,
    InternalError,
}

/// What the pipeline does next after the CAPTCHA step.
#[derive(PartialEq, Eq, Structural, Clone, Copy, Debug)]
pub enum HandlerAction {
    Notify,
    Finish(OutwardResult),
}

/// The reported outcome of one notification send attempt.
#[derive(Debug)]
pub enum NotificationResult {
    Sent,
    Failed(String),
}

/// The decision after the CAPTCHA step: notify on acceptance, forbid on
/// rejection, fail internally when verification itself failed.
pub open spec fn spec_on_captcha(o: &CaptchaOutcome) -> HandlerAction {
    match o {
        CaptchaOutcome::Accepted => HandlerAction::Notify,
        CaptchaOutcome::Rejected => HandlerAction::Finish(OutwardResult::Forbidden),
        CaptchaOutcome::VerificationFailed(_) => HandlerAction::Finish(
            OutwardResult::InternalError,
        ),
    }
}

/// The decision after the notification step: redirect on a sent message,
/// fail internally otherwise.
pub open spec fn spec_on_notification(r: &NotificationResult) -> OutwardResult {
    match r {
        NotificationResult::Sent => OutwardResult::SuccessRedirect,
        NotificationResult::Failed(_) => OutwardResult::InternalError,
    }
}

/// How many notification send attempts handling one submission makes,
/// given the CAPTCHA outcome.
pub open spec fn spec_notification_attempts(o: &CaptchaOutcome) -> nat {
    if o is Accepted {
        1
    } else {
        0
    }
}

pub fn on_captcha_outcome(o: &CaptchaOutcome) -> (a: HandlerAction)
    ensures
        a == spec_on_captcha(o),
{
    match o {
        CaptchaOutcome::Accepted => HandlerAction::Notify,
        CaptchaOutcome::Rejected => HandlerAction::Finish(OutwardResult::Forbidden),
        CaptchaOutcome::VerificationFailed(_) => HandlerAction::Finish(
            OutwardResult::InternalError,
        ),
    }
}

pub fn on_notification_result(r: &NotificationResult) -> (o: OutwardResult)
    ensures
        o == spec_on_notification(r),
{
    match r {
        NotificationResult::Sent => OutwardResult::SuccessRedirect,
        NotificationResult::Failed(_) => OutwardResult::InternalError,
    }
}

/// The fixed destination of the success redirect.
pub fn redirect_target() -> (r: &'static str)
    ensures
        r@ == "/success"@,
{
    "/success"
}

/// An accepted CAPTCHA leads to exactly one notification attempt, and a sent
/// notification to the one success redirect: the whole pipeline produces
/// exactly one outward result.
pub proof fn lemma_accepted_notifies_once_then_redirects(
    o: &CaptchaOutcome,
    n: &NotificationResult,
)
    requires
        o is Accepted,
        n is Sent,
    ensures
        spec_notification_attempts(o) == 1,
        spec_on_captcha(o) == HandlerAction::Notify,
        spec_on_notification(n) == OutwardResult::SuccessRedirect,
{
}

/// A rejected CAPTCHA leads to no notification attempt and a forbidden
/// outward result.
pub proof fn lemma_rejected_never_notifies(o: &CaptchaOutcome)
    requires
        o is Rejected,
    ensures
        spec_notification_attempts(o) == 0,
        spec_on_captcha(o) == HandlerAction::Finish(OutwardResult::Forbidden),
{
}

} // verus!
