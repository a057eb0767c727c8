//! Composition of the operator notification e-mail.
//!
//! The message is composed here as plain values — mailboxes, subject, body —
//! with its full content pinned down; the surrounding program turns it into
//! an SMTP message and delivers it over an authenticated, STARTTLS-upgraded
//! session. Address syntax is judged by the same parser the delivery path
//! uses, so a composed message never fails delivery on address syntax.

use crate::num::spec_dec;
use crate::num::u32_to_string;
use crate::num::u64_to_string;
use crate::request::Deployment;
use crate::request::VmRequest;
use vstd::prelude::*;

verus! {

/// Syntactic validity of an e-mail address, exactly as lettre's address
/// parser decides it: a function of the characters alone.
pub uninterp spec fn address_valid(s: Seq<char>) -> bool;

/// Relies on `lettre::Address`'s `FromStr`: it checks address syntax alone
/// and its verdict is a deterministic function of the input characters.
#[verifier::external_body]
fn address_is_valid(s: &str) -> (r: bool)
    ensures
        r == address_valid(s@),
{
    s.parse::<lettre::Address>().is_ok()
}

/// Mail configuration, loaded once at startup. Holds the relay host, the
/// authentication credentials, the fixed sender mailbox and the operator
/// (human responder) mailbox. The two mailbox addresses are syntactically
/// valid by construction: a process with a partial or invalid configuration
/// must refuse to start, so `new` is the only way in.
pub struct MailConfig {
    smtp_server: String,
    human_responder: String,
    sender: String,
    user: String,
    pass: String,
}

impl MailConfig {
    #[verifier::type_invariant]
    spec fn wf(self) -> bool {
        address_valid(self.human_responder@) && address_valid(self.sender@)
    }

    pub closed spec fn spec_smtp_server(&self) -> Seq<char> {
        self.smtp_server@
    }

    pub closed spec fn spec_human_responder(&self) -> Seq<char> {
        self.human_responder@
    }

    pub closed spec fn spec_sender(&self) -> Seq<char> {
        self.sender@
    }

    pub closed spec fn spec_user(&self) -> Seq<char> {
        self.user@
    }

    pub closed spec fn spec_pass(&self) -> Seq<char> {
        self.pass@
    }

    /// Accepts the configuration only when both configured mailboxes are
    /// syntactically valid addresses.
    pub fn new(
        smtp_server: String,
        human_responder: String,
        sender: String,
        user: String,
        pass: String,
    ) -> (r: Option<MailConfig>)
        ensures
            r is Some <==> address_valid(human_responder@) && address_valid(sender@),
            r matches Some(c) ==> c.spec_smtp_server() == smtp_server@
                && c.spec_human_responder() == human_responder@ && c.spec_sender() == sender@
                && c.spec_user() == user@ && c.spec_pass() == pass@,
    {
        if address_is_valid(human_responder.as_str()) && address_is_valid(sender.as_str()) {
            Some(MailConfig { smtp_server, human_responder, sender, user, pass })
        } else {
            None
        }
    }

    pub fn smtp_server(&self) -> (r: &String)
        ensures
            r@ == self.spec_smtp_server(),
    {
        &self.smtp_server
    }

    pub fn human_responder(&self) -> (r: &String)
        ensures
            r@ == self.spec_human_responder(),
    {
        &self.human_responder
    }

    pub fn sender(&self) -> (r: &String)
        ensures
            r@ == self.spec_sender(),
    {
        &self.sender
    }

    pub fn user(&self) -> (r: &String)
        ensures
            r@ == self.spec_user(),
    {
        &self.user
    }

    pub fn pass(&self) -> (r: &String)
        ensures
            r@ == self.spec_pass(),
    {
        &self.pass
    }
}

/// A composed notification message, as plain values. The surrounding program
/// maps it one-to-one onto its SMTP library's message type and sends it; the
/// message is atomic, so no partial-send state exists.
#[derive(Debug)]
pub struct MailMessage {
    /// Display name of the sender mailbox.
    pub from_name: String,
    /// Sender address: the configured fixed "noreply" mailbox.
    pub from: String,
    /// Reply-to addresses: the operator mailbox, then the requester's
    /// institutional mailbox.
    pub reply_to: Vec<String>,
    /// Primary recipient: the operator mailbox.
    pub to: String,
    /// Carbon copy: the requester's institutional mailbox.
    pub cc: String,
    pub subject: String,
    pub body: String,
}

/// The subject line: marked as ignorable outside production deployment.
pub open spec fn spec_subject(deployment: &Deployment) -> Seq<char> {
    if *deployment is Test {
        "[Test-Please-Ignore] VM Request"@
    } else {
        "VM Request"@
    }
}

/// The body lines that every notification carries, in order: preamble, OS,
/// hostname, RAM converted from gibibytes to mebibytes, disk size in
/// gigabytes, the SSH keys block, both e-mail addresses, and the core count.
pub open spec fn spec_mail_base(req: &VmRequest) -> Seq<char> {
    "This is a generated E-Mail to confirm your VM Request.\n"@
        + "If you have not requested this or there are missing or incomplete information, please respond to this e-mail.\n"@
        + "\n"@ + "\n"@ + "OS: "@ + req.os@ + "\n"@ + "Hostname: "@ + req.hostname@ + "\n"@
        + "RAM: "@ + spec_dec((req.ram as nat) * 1024) + " MB\n"@ + "Disk: "@ + spec_dec(
        req.disk as nat,
    ) + "G\n"@ + "SSH keys:\n"@ + req.ssh_keys@ + "\n"@ + "University E-Mail: "@ + req.ethz_email@
        + "\n"@ + "External E-Mail: "@ + req.external_email@ + "\n"@ + "Cores: "@ + spec_dec(
        req.cores as nat,
    ) + "\n"@
}

/// The optional trailing wishes line: present exactly when the request
/// carries free-text wishes, with the field's exact text.
pub open spec fn spec_wishes_line(wishes: &Option<String>) -> Seq<char> {
    match wishes {
        Some(w) => "requests: "@ + w@ + "\n"@,
        None => Seq::<char>::empty(),
    }
}

/// The whole plain-text notification body.
pub open spec fn spec_mail_body(req: &VmRequest) -> Seq<char> {
    spec_mail_base(req) + spec_wishes_line(&req.wishes)
}

/// Renders the notification body for one request.
pub fn format_mail(req: &VmRequest) -> (r: String)
    ensures
        r@ == spec_mail_body(req),
{
    let mut buf = String::new();
    buf.append("This is a generated E-Mail to confirm your VM Request.\n");
    buf.append(
        "If you have not requested this or there are missing or incomplete information, please respond to this e-mail.\n",
    );
    buf.append("\n");
    buf.append("\n");
    buf.append("OS: ");
    buf.append(req.os.as_str());
    buf.append("\n");
    buf.append("Hostname: ");
    buf.append(req.hostname.as_str());
    buf.append("\n");
    buf.append("RAM: ");
    let ram_mb: u64 = (req.ram as u64) * 1024;
    buf.append(u64_to_string(ram_mb).as_str());
    buf.append(" MB\n");
    buf.append("Disk: ");
    buf.append(u32_to_string(req.disk).as_str());
    buf.append("G\n");
    buf.append("SSH keys:\n");
    buf.append(req.ssh_keys.as_str());
    buf.append("\n");
    buf.append("University E-Mail: ");
    buf.append(req.ethz_email.as_str());
    buf.append("\n");
    buf.append("External E-Mail: ");
    buf.append(req.external_email.as_str());
    buf.append("\n");
    buf.append("Cores: ");
    buf.append(u32_to_string(req.cores).as_str());
    buf.append("\n");
    match &req.wishes {
        Some(w) => {
            buf.append("requests: ");
            buf.append(w.as_str());
            buf.append("\n");
        },
        None => {},
    }
    proof {
        assert(buf@ =~= spec_mail_body(req));
    }
    buf
}

/// Why a message could not be composed: a requester mailbox field is not a
/// syntactically valid address. Reported as one opaque failure.
#[derive(PartialEq, Eq, Structural, Clone, Copy, Debug)]
pub enum ComposeError {
    InvalidAddress,
}

/// Composes the notification for one accepted request, or fails — before any
/// network call — when a requester e-mail field is not a valid address.
pub fn compose_notification(req: &VmRequest, config: &MailConfig, deployment: &Deployment) -> (r:
    Result<MailMessage, ComposeError>)
    ensures
        r is Ok <==> address_valid(req.ethz_email@) && address_valid(req.external_email@),
        r matches Ok(m) ==> m.from_name@ == "vsos noreply"@ && m.from@ == config.spec_sender()
            && m.reply_to@.len() == 2 && m.reply_to@[0]@ == config.spec_human_responder()
            && m.reply_to@[1]@ == req.ethz_email@ && m.to@ == config.spec_human_responder()
            && m.cc@ == req.ethz_email@ && m.subject@ == spec_subject(deployment) && m.body@
            == spec_mail_body(req),
        r matches Err(e) ==> e == ComposeError::InvalidAddress,
{
    if !address_is_valid(req.ethz_email.as_str()) || !address_is_valid(
        req.external_email.as_str(),
    ) {
        return Err(ComposeError::InvalidAddress);
    }
    let subject = if deployment.is_test() {
        "[Test-Please-Ignore] VM Request"
    } else {
        "VM Request"
    };
    let mut reply_to: Vec<String> = Vec::new();
    reply_to.push(config.human_responder().clone());
    reply_to.push(req.ethz_email.clone());
    Ok(
        MailMessage {
            from_name: "vsos noreply".to_owned(),
            from: config.sender().clone(),
            reply_to,
            to: config.human_responder().clone(),
            cc: req.ethz_email.clone(),
            subject: subject.to_owned(),
            body: format_mail(req),
        },
    )
}

/// A sequence of characters occurs somewhere in another.
pub open spec fn contains_seq(hay: Seq<char>, needle: Seq<char>) -> bool {
    exists|i: int|
        0 <= i && i + needle.len() <= hay.len() && #[trigger] hay.subrange(i, i + needle.len())
            == needle
}

/// RAM conversion is exact: a request for `N` gibibytes is rendered in the
/// notification body as the line `RAM: <N * 1024> MB`, for every `N`.
pub proof fn lemma_ram_conversion_exact(req: &VmRequest)
    ensures
        contains_seq(
            spec_mail_body(req),
            "RAM: "@ + spec_dec((req.ram as nat) * 1024) + " MB\n"@,
        ),
{
    let pre = "This is a generated E-Mail to confirm your VM Request.\n"@
        + "If you have not requested this or there are missing or incomplete information, please respond to this e-mail.\n"@
        + "\n"@ + "\n"@ + "OS: "@ + req.os@ + "\n"@ + "Hostname: "@ + req.hostname@ + "\n"@;
    let needle = "RAM: "@ + spec_dec((req.ram as nat) * 1024) + " MB\n"@;
    let post = "Disk: "@ + spec_dec(req.disk as nat) + "G\n"@ + "SSH keys:\n"@ + req.ssh_keys@
        + "\n"@ + "University E-Mail: "@ + req.ethz_email@ + "\n"@ + "External E-Mail: "@
        + req.external_email@ + "\n"@ + "Cores: "@ + spec_dec(req.cores as nat) + "\n"@
        + spec_wishes_line(&req.wishes);
    assert(spec_mail_body(req) =~= pre + needle + post);
    assert((pre + needle + post).subrange(pre.len() as int, pre.len() as int + needle.len() as int) =~= needle);
}

/// The notification body omits the wishes line exactly when the optional
/// wishes field is absent; when present, the line carries the field's exact
/// text after the fixed `requests: ` label, and nothing else follows it.
pub proof fn lemma_wishes_line_iff(req: &VmRequest)
    ensures
        req.wishes is None ==> spec_mail_body(req) == spec_mail_base(req),
        req.wishes matches Some(w) ==> spec_mail_body(req) == spec_mail_base(req) + "requests: "@
            + w@ + "\n"@ && contains_seq(spec_mail_body(req), "requests: "@ + w@ + "\n"@),
{
    if req.wishes is None {
        assert(spec_mail_body(req) =~= spec_mail_base(req));
    } else {
        let w = req.wishes->Some_0;
        let base = spec_mail_base(req);
        let needle = "requests: "@ + w@ + "\n"@;
        assert(spec_mail_body(req) =~= base + needle);
        assert((base + needle).subrange(
            base.len() as int,
            base.len() as int + needle.len() as int,
        ) =~= needle);
    }
}

} // verus!
