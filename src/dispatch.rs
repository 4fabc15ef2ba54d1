//! One message per recipient, all carrying the same attachment, and the
//! gathering of what became of each.
//!
//! Sending is done by the caller, concurrently or not: it builds a batch with
//! [`prepare_batch`], hands each job's letter to a transport, records a
//! [`Report`] per job, and turns the reports into outcomes with
//! [`collect_outcomes`].
use vstd::prelude::*;

use crate::config::UserConfig;
use crate::letter::{
    address_error_message, attachment_part, base_name, compose_message,
    content_type_error_message, content_type_parses, file_name_of,
    mailbox_parses, parse_content_type, parse_mailbox,
};

verus! {

/// The label of the sender's mailbox.
pub const SENDER_LABEL: &'static str = "TNICL_242";

/// The label of each recipient's mailbox.
pub const RECIPIENT_LABEL: &'static str = "You";

/// The subject of every message.
pub const SUBJECT: &'static str = "TJU_TNICL_PL_DATA";

/// The content type given to the attachment, whatever its bytes.
pub const ATTACHMENT_TYPE: &'static str = "application/pdf";

/// The mail relay every message goes through.
pub const RELAY_HOST: &'static str = "smtp.qq.com";

/// The relay's port for secure submission.
pub const RELAY_PORT: u16 = 465;

/// The mailbox text `<label> <<address>>`.
pub open spec fn mailbox_text(label: Seq<char>, address: Seq<char>) -> Seq<char> {
    label + " <"@ + address + ">"@
}

/// Writes the mailbox text `<label> <<address>>`.
pub fn mailbox_string(label: &str, address: &str) -> (r: String)
    ensures
        r@ == mailbox_text(label@, address@),
{
    let mut r = String::from_str(label);
    r.append(" <");
    r.append(address);
    r.append(">");
    r
}

/// How to reach and log in at the relay.
pub struct SessionParams {
    pub host: String,
    pub port: u16,
    pub username: String,
    pub secret: String,
}

/// The relay session for a sender: the fixed relay, logged in with the
/// sender's address and credential.
pub fn session_params(config: &UserConfig) -> (r: SessionParams)
    ensures
        r.host@ == RELAY_HOST@,
        r.port == RELAY_PORT,
        r.username@ == config.email_spec(),
        r.secret@ == config.pwd_spec(),
{
    SessionParams {
        host: String::from_str(RELAY_HOST),
        port: RELAY_PORT,
        username: String::from_str(config.email()),
        secret: String::from_str(config.pwd()),
    }
}

/// What was found at the attachment path, read once for the whole batch.
pub enum FileRead {
    /// No regular file is there.
    Missing,
    /// A file is there but could not be read; the reason.
    Unreadable(String),
    /// The file's bytes.
    Bytes(Vec<u8>),
}

/// Why a whole batch could not be prepared. No message is sent then.
pub enum BatchError {
    AttachmentNotFound,
    /// The attachment could not be read; the reason.
    AttachmentUnreadable(String),
    /// The path has no base name to give the attachment.
    NoFileName,
    /// The attachment's content type was refused; the reason.
    BadContentType(String),
}

/// The message for one recipient, with the parts it is built from.
pub struct Job {
    pub recipient: String,
    /// The sender's mailbox text.
    pub from: String,
    /// The recipient's mailbox text.
    pub to: String,
    pub subject: String,
    /// The file name the attachment carries.
    pub attachment_name: String,
    /// The attachment's content type.
    pub content_type: String,
    /// The attachment's bytes.
    pub body: Vec<u8>,
    /// The message built from `from`, `to`, `subject` and one attachment of
    /// `attachment_name`, `body` and `content_type`; or, where one of the
    /// mailbox texts does not parse, why.
    pub letter: Result<lettre::Message, String>,
}

/// What the job for `recipient` holds, for a sender, an attachment name and
/// the attachment's bytes.
pub open spec fn job_matches(
    job: Job,
    sender: Seq<char>,
    recipient: Seq<char>,
    file_name: Seq<char>,
    bytes: Seq<u8>,
) -> bool {
    &&& job.recipient@ == recipient
    &&& job.from@ == mailbox_text(SENDER_LABEL@, sender)
    &&& job.to@ == mailbox_text(RECIPIENT_LABEL@, recipient)
    &&& job.subject@ == SUBJECT@
    &&& job.attachment_name@ == file_name
    &&& job.content_type@ == ATTACHMENT_TYPE@
    &&& job.body@ == bytes
    &&& (job.letter is Ok <==> mailbox_parses(job.from@) && mailbox_parses(job.to@))
}

/// A copy of the attachment's bytes for one message.
fn copy_bytes(bytes: &Vec<u8>) -> (r: Vec<u8>)
    ensures
        r@ == bytes@,
{
    let mut r: Vec<u8> = Vec::new();
    let mut i: usize = 0;
    while i < bytes.len()
        invariant
            i <= bytes.len(),
            r@ == bytes@.subrange(0, i as int),
        decreases bytes.len() - i,
    {
        r.push(bytes[i]);
        i = i + 1;
    }
    assert(r@ =~= bytes@);
    r
}

/// Builds the message between two mailbox texts carrying the attachment. It
/// is built exactly when both texts parse as mailboxes.
fn build_letter(
    from_text: &str,
    to_text: &str,
    file_name: &String,
    bytes: &Vec<u8>,
    content_type: &lettre::message::header::ContentType,
) -> (r: Result<lettre::Message, String>)
    ensures
        r is Ok <==> mailbox_parses(from_text@) && mailbox_parses(to_text@),
{
    let from = match parse_mailbox(from_text) {
        Ok(m) => m,
        Err(e) => return Err(address_error_message(&e)),
    };
    let to = match parse_mailbox(to_text) {
        Ok(m) => m,
        Err(e) => return Err(address_error_message(&e)),
    };
    let part = attachment_part(file_name.clone(), copy_bytes(bytes), content_type.clone());
    match compose_message(from, to, SUBJECT, part) {
        Ok(m) => Ok(m),
        Err(_) => {
            proof {
                assert(false);
            }
            Err(String::new())
        },
    }
}

/// Prepares one job per recipient, in the order given, all with the same
/// attachment bytes and name. A missing or unreadable attachment, a path
/// without a base name, or a refused content type fails the whole batch
/// before any message exists. A recipient whose mailbox does not parse gets
/// a job whose letter is an error; the other jobs are not affected.
pub fn prepare_batch(
    config: &UserConfig,
    attachment_path: &str,
    attachment: &FileRead,
    recipients: &Vec<String>,
) -> (r: Result<Vec<Job>, BatchError>)
    ensures
        *attachment is Missing ==> r is Err && r->Err_0 is AttachmentNotFound,
        *attachment is Unreadable ==> r is Err && r->Err_0 is AttachmentUnreadable
            && r->Err_0->AttachmentUnreadable_0@ == attachment->Unreadable_0@,
        *attachment is Bytes && base_name(attachment_path@) is None ==> r is Err
            && r->Err_0 is NoFileName,
        *attachment is Bytes && base_name(attachment_path@) is Some && !content_type_parses(
            ATTACHMENT_TYPE@,
        ) ==> r is Err && r->Err_0 is BadContentType,
        r is Ok <==> (*attachment is Bytes && base_name(attachment_path@) is Some
            && content_type_parses(ATTACHMENT_TYPE@)),
        r is Ok ==> r->Ok_0.len() == recipients.len(),
        r is Ok ==> forall|i: int|
            0 <= i < recipients.len() ==> job_matches(
                #[trigger] r->Ok_0[i],
                config.email_spec(),
                recipients[i]@,
                base_name(attachment_path@)->Some_0,
                attachment->Bytes_0@,
            ),
{
    let bytes = match attachment {
        FileRead::Missing => return Err(BatchError::AttachmentNotFound),
        FileRead::Unreadable(e) => return Err(BatchError::AttachmentUnreadable(e.clone())),
        FileRead::Bytes(b) => b,
    };
    let file_name = match file_name_of(attachment_path) {
        Some(n) => n,
        None => return Err(BatchError::NoFileName),
    };
    let content_type = match parse_content_type(ATTACHMENT_TYPE) {
        Ok(c) => c,
        Err(e) => return Err(BatchError::BadContentType(content_type_error_message(&e))),
    };
    let mut jobs: Vec<Job> = Vec::new();
    let mut i: usize = 0;
    while i < recipients.len()
        invariant
            i <= recipients.len(),
            jobs.len() == i,
            file_name@ == base_name(attachment_path@)->Some_0,
            *attachment is Bytes,
            bytes@ == attachment->Bytes_0@,
            forall|j: int|
                0 <= j < i ==> job_matches(
                    #[trigger] jobs[j],
                    config.email_spec(),
                    recipients[j]@,
                    file_name@,
                    bytes@,
                ),
        decreases recipients.len() - i,
    {
        let recipient = &recipients[i];
        let from = mailbox_string(SENDER_LABEL, config.email());
        let to = mailbox_string(RECIPIENT_LABEL, recipient.as_str());
        let letter = build_letter(from.as_str(), to.as_str(), &file_name, bytes, &content_type);
        let job = Job {
            recipient: recipient.clone(),
            from,
            to,
            subject: String::from_str(SUBJECT),
            attachment_name: file_name.clone(),
            content_type: String::from_str(ATTACHMENT_TYPE),
            body: copy_bytes(bytes),
            letter,
        };
        jobs.push(job);
        i = i + 1;
    }
    Ok(jobs)
}

/// In a prepared batch where the sender's mailbox and every recipient's
/// mailbox parse, every job's letter is built.
pub proof fn lemma_parseable_batch_built(
    sender: Seq<char>,
    recipients: Seq<String>,
    file_name: Seq<char>,
    bytes: Seq<u8>,
    jobs: Seq<Job>,
)
    requires
        jobs.len() == recipients.len(),
        forall|i: int|
            0 <= i < jobs.len() ==> job_matches(
                #[trigger] jobs[i],
                sender,
                recipients[i]@,
                file_name,
                bytes,
            ),
        mailbox_parses(mailbox_text(SENDER_LABEL@, sender)),
        forall|i: int|
            0 <= i < recipients.len() ==> mailbox_parses(
                mailbox_text(RECIPIENT_LABEL@, #[trigger] recipients[i]@),
            ),
    ensures
        forall|i: int| 0 <= i < jobs.len() ==> (#[trigger] jobs[i]).letter is Ok,
{
    assert forall|i: int| 0 <= i < jobs.len() implies (#[trigger] jobs[i]).letter is Ok by {
        assert(job_matches(jobs[i], sender, recipients[i]@, file_name, bytes));
        assert(mailbox_parses(mailbox_text(RECIPIENT_LABEL@, recipients[i]@)));
    }
}

/// What the caller saw of one job's send.
pub enum Report {
    /// The relay accepted the message.
    Sent,
    /// The message was not sent: it could not be built, the login was
    /// refused, or the relay or network refused it; the reason.
    Refused(String),
    /// The task that ran the send ended without a result.
    Lost,
}

/// The terminal result for one recipient.
pub enum Outcome {
    Delivered(String),
    /// The recipient, and why the message did not reach the relay.
    Failed(String, String),
}

/// The detail recorded for a task that ended without a result.
pub open spec fn lost_detail() -> Seq<char> {
    "the send task ended without a result"@
}

impl Outcome {
    /// The recipient the outcome is for.
    pub open spec fn recipient_spec(&self) -> Seq<char> {
        match self {
            Outcome::Delivered(r) => r@,
            Outcome::Failed(r, _) => r@,
        }
    }

    pub fn recipient(&self) -> (r: &String)
        ensures
            r@ == self.recipient_spec(),
    {
        match self {
            Outcome::Delivered(r) => r,
            Outcome::Failed(r, _) => r,
        }
    }

    pub fn is_delivered(&self) -> (r: bool)
        ensures
            r == self is Delivered,
    {
        match self {
            Outcome::Delivered(_) => true,
            Outcome::Failed(_, _) => false,
        }
    }
}

/// The outcome that a report gives for a recipient.
pub open spec fn outcome_matches(o: Outcome, recipient: Seq<char>, report: Report) -> bool {
    &&& o.recipient_spec() == recipient
    &&& match report {
        Report::Sent => o is Delivered,
        Report::Refused(d) => o is Failed && o->Failed_1@ == d@,
        Report::Lost => o is Failed && o->Failed_1@ == lost_detail(),
    }
}

/// Outcomes gathered from one report per recipient: one outcome per
/// recipient, at the same place.
pub open spec fn gathered(recipients: Seq<String>, reports: Seq<Report>, outcomes: Seq<Outcome>) -> bool {
    &&& outcomes.len() == recipients.len()
    &&& forall|i: int|
        0 <= i < recipients.len() ==> outcome_matches(
            #[trigger] outcomes[i],
            recipients[i]@,
            reports[i],
        )
}

/// Turns the report of each recipient's send into that recipient's outcome.
/// A failed or lost send gives a failure for its own recipient only.
pub fn collect_outcomes(recipients: &Vec<String>, reports: Vec<Report>) -> (r: Vec<Outcome>)
    requires
        reports.len() == recipients.len(),
    ensures
        gathered(recipients@, reports@, r@),
{
    let mut outcomes: Vec<Outcome> = Vec::new();
    let mut i: usize = 0;
    while i < reports.len()
        invariant
            i <= reports.len(),
            reports.len() == recipients.len(),
            outcomes.len() == i,
            forall|j: int|
                0 <= j < i ==> outcome_matches(#[trigger] outcomes[j], recipients[j]@, reports[j]),
        decreases reports.len() - i,
    {
        let recipient = recipients[i].clone();
        let outcome = match &reports[i] {
            Report::Sent => Outcome::Delivered(recipient),
            Report::Refused(d) => Outcome::Failed(recipient, d.clone()),
            Report::Lost => Outcome::Failed(
                recipient,
                String::from_str("the send task ended without a result"),
            ),
        };
        outcomes.push(outcome);
        i = i + 1;
    }
    outcomes
}

/// The recipients that a sequence of outcomes is for.
pub open spec fn recipients_of(outcomes: Seq<Outcome>) -> Seq<Seq<char>> {
    outcomes.map_values(|o: Outcome| o.recipient_spec())
}

/// Completeness: gathered outcomes number as many as the recipients, however
/// many sends failed, and are for exactly the recipients submitted, each as
/// often as it was submitted.
pub proof fn lemma_outcomes_complete(
    recipients: Seq<String>,
    reports: Seq<Report>,
    outcomes: Seq<Outcome>,
)
    requires
        gathered(recipients, reports, outcomes),
    ensures
        outcomes.len() == recipients.len(),
        recipients_of(outcomes) == recipients.map_values(|s: String| s@),
        recipients_of(outcomes).to_multiset() == recipients.map_values(|s: String| s@).to_multiset(),
{
    assert(recipients_of(outcomes) =~= recipients.map_values(|s: String| s@));
}

/// Isolation: where every send but one succeeded, the outcomes show that one
/// recipient failed and every other recipient delivered.
pub proof fn lemma_failure_isolated(
    recipients: Seq<String>,
    reports: Seq<Report>,
    outcomes: Seq<Outcome>,
    k: int,
)
    requires
        gathered(recipients, reports, outcomes),
        reports.len() == recipients.len(),
        0 <= k < reports.len(),
        !(reports[k] is Sent),
        forall|i: int| 0 <= i < reports.len() && i != k ==> #[trigger] reports[i] is Sent,
    ensures
        outcomes[k] is Failed,
        outcomes[k].recipient_spec() == recipients[k]@,
        forall|i: int|
            0 <= i < outcomes.len() && i != k ==> #[trigger] outcomes[i] is Delivered
                && outcomes[i].recipient_spec() == recipients[i]@,
{
    assert(outcome_matches(outcomes[k], recipients[k]@, reports[k]));
    assert forall|i: int| 0 <= i < outcomes.len() && i != k implies #[trigger] outcomes[i] is Delivered
        && outcomes[i].recipient_spec() == recipients[i]@ by {
        assert(outcome_matches(outcomes[i], recipients[i]@, reports[i]));
        assert(reports[i] is Sent);
    }
}

} // verus!
