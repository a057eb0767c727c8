use vmreq::captcha::{classify_verification, CaptchaOutcome};
use vmreq::error::Error;
use vmreq::handler::{
    on_captcha_outcome, on_notification_result, redirect_target, HandlerAction, NotificationResult,
    OutwardResult,
};
use vmreq::mail::{compose_notification, format_mail, ComposeError, MailConfig};
use vmreq::request::{Deployment, VmRequest};

fn sample_request(wishes: Option<&str>) -> VmRequest {
    VmRequest {
        ethz_email: "a@ethz.ch".to_owned(),
        external_email: "a@example.com".to_owned(),
        os: "debian12".to_owned(),
        ssh_keys: "ssh-ed25519 AAAA...".to_owned(),
        hostname: "vm1".to_owned(),
        cores: 2,
        ram: 4,
        disk: 20,
        wishes: wishes.map(|w| w.to_owned()),
        bot: false,
        h_captcha_response: "token".to_owned(),
    }
}

fn sample_config() -> MailConfig {
    MailConfig::new(
        "smtp.example.org".to_owned(),
        "ops@example.org".to_owned(),
        "noreply@example.org".to_owned(),
        "user".to_owned(),
        "pass".to_owned(),
    )
    .expect("valid configuration")
}

#[test]
fn classify_success_status_is_accepted() {
    assert!(matches!(classify_verification(Ok(200)), CaptchaOutcome::Accepted));
    assert!(matches!(classify_verification(Ok(299)), CaptchaOutcome::Accepted));
}

#[test]
fn classify_non_success_status_is_rejected() {
    assert!(matches!(classify_verification(Ok(400)), CaptchaOutcome::Rejected));
    assert!(matches!(classify_verification(Ok(199)), CaptchaOutcome::Rejected));
    assert!(matches!(classify_verification(Ok(300)), CaptchaOutcome::Rejected));
    assert!(matches!(classify_verification(Ok(500)), CaptchaOutcome::Rejected));
}

#[test]
fn classify_transport_error_is_verification_failed() {
    let out = classify_verification(Err("connection reset".to_owned()));
    match out {
        CaptchaOutcome::VerificationFailed(reason) => assert_eq!(reason, "connection reset"),
        _ => panic!("expected a verification failure"),
    }
}

#[test]
fn classify_same_token_twice_accepts_twice() {
    // The verifier keeps no state: the same always-succeeding provider
    // answer classifies the same way on both calls.
    assert!(matches!(classify_verification(Ok(200)), CaptchaOutcome::Accepted));
    assert!(matches!(classify_verification(Ok(200)), CaptchaOutcome::Accepted));
}

#[test]
fn accepted_captcha_leads_to_notify_then_redirect() {
    let action = on_captcha_outcome(&CaptchaOutcome::Accepted);
    assert_eq!(action, HandlerAction::Notify);
    let outward = on_notification_result(&NotificationResult::Sent);
    assert_eq!(outward, OutwardResult::SuccessRedirect);
    assert_eq!(redirect_target(), "/success");
}

#[test]
fn rejected_captcha_is_forbidden_without_notification() {
    // Scenario: the provider answers HTTP 400 to the verification call.
    let out = classify_verification(Ok(400));
    assert!(matches!(out, CaptchaOutcome::Rejected));
    let action = on_captcha_outcome(&out);
    assert_eq!(action, HandlerAction::Finish(OutwardResult::Forbidden));
}

#[test]
fn verification_failure_is_internal_error() {
    let out = classify_verification(Err("timeout".to_owned()));
    let action = on_captcha_outcome(&out);
    assert_eq!(action, HandlerAction::Finish(OutwardResult::InternalError));
}

#[test]
fn failed_notification_is_internal_error() {
    let outward = on_notification_result(&NotificationResult::Failed("refused".to_owned()));
    assert_eq!(outward, OutwardResult::InternalError);
}

#[test]
fn body_renders_all_lines_without_wishes() {
    let body = format_mail(&sample_request(None));
    let expected = "This is a generated E-Mail to confirm your VM Request.\n\
        If you have not requested this or there are missing or incomplete information, please respond to this e-mail.\n\
        \n\
        \n\
        OS: debian12\n\
        Hostname: vm1\n\
        RAM: 4096 MB\n\
        Disk: 20G\n\
        SSH keys:\nssh-ed25519 AAAA...\n\
        University E-Mail: a@ethz.ch\n\
        External E-Mail: a@example.com\n\
        Cores: 2\n";
    assert_eq!(body, expected);
    assert!(body.contains("RAM: 4096 MB"));
    assert!(body.contains("Disk: 20G"));
    assert!(!body.contains("requests:"));
}

#[test]
fn body_carries_exact_wishes_text_when_present() {
    let body = format_mail(&sample_request(Some("two network interfaces")));
    assert!(body.ends_with("requests: two network interfaces\n"));
    let without = format_mail(&sample_request(None));
    assert_eq!(body, format!("{without}requests: two network interfaces\n"));
}

#[test]
fn ram_conversion_is_exact() {
    assert!(format_mail(&sample_request(None)).contains("RAM: 4096 MB\n"));
    let mut req = sample_request(None);
    req.ram = 0;
    assert!(format_mail(&req).contains("RAM: 0 MB\n"));
    req.ram = 4194303;
    assert!(format_mail(&req).contains("RAM: 4294966272 MB\n"));
    req.ram = u32::MAX;
    assert!(format_mail(&req).contains("RAM: 4398046510080 MB\n"));
}

#[test]
fn compose_fills_every_header_field() {
    let req = sample_request(None);
    let config = sample_config();
    let m = compose_notification(&req, &config, &Deployment::Prod).expect("composes");
    assert_eq!(m.from_name, "vsos noreply");
    assert_eq!(m.from, "noreply@example.org");
    assert_eq!(m.reply_to, vec!["ops@example.org".to_owned(), "a@ethz.ch".to_owned()]);
    assert_eq!(m.to, "ops@example.org");
    assert_eq!(m.cc, "a@ethz.ch");
    assert_eq!(m.subject, "VM Request");
    assert_eq!(m.body, format_mail(&req));
}

#[test]
fn compose_marks_test_deployment_in_subject() {
    let m = compose_notification(&sample_request(None), &sample_config(), &Deployment::Test)
        .expect("composes");
    assert_eq!(m.subject, "[Test-Please-Ignore] VM Request");
}

#[test]
fn compose_rejects_invalid_institutional_address() {
    let mut req = sample_request(None);
    req.ethz_email = "not-an-email".to_owned();
    let r = compose_notification(&req, &sample_config(), &Deployment::Prod);
    assert_eq!(r.unwrap_err(), ComposeError::InvalidAddress);
}

#[test]
fn compose_rejects_invalid_external_address() {
    let mut req = sample_request(None);
    req.external_email = "@@".to_owned();
    let r = compose_notification(&req, &sample_config(), &Deployment::Prod);
    assert_eq!(r.unwrap_err(), ComposeError::InvalidAddress);
}

#[test]
fn config_requires_valid_mailboxes() {
    assert!(MailConfig::new(
        "smtp.example.org".to_owned(),
        "not an address".to_owned(),
        "noreply@example.org".to_owned(),
        "user".to_owned(),
        "pass".to_owned(),
    )
    .is_none());
    assert!(MailConfig::new(
        "smtp.example.org".to_owned(),
        "ops@example.org".to_owned(),
        "".to_owned(),
        "user".to_owned(),
        "pass".to_owned(),
    )
    .is_none());
}

#[test]
fn config_keeps_its_fields() {
    let config = sample_config();
    assert_eq!(config.smtp_server(), "smtp.example.org");
    assert_eq!(config.human_responder(), "ops@example.org");
    assert_eq!(config.sender(), "noreply@example.org");
    assert_eq!(config.user(), "user");
    assert_eq!(config.pass(), "pass");
}

#[test]
fn error_keeps_cause_and_carries_a_reference() {
    let e = Error::new("upstream refused".to_owned());
    assert_eq!(e.cause(), "upstream refused");
    assert_eq!(e.reference().len(), 36);
}

#[test]
fn admin_mounts_only_outside_production() {
    assert!(vmreq::admin::mount(&Deployment::Test));
    assert!(!vmreq::admin::mount(&Deployment::Prod));
    assert!(Deployment::Prod.is_prod());
    assert!(!Deployment::Prod.is_test());
    assert!(Deployment::Test.is_test());
}
