use crate::outside::{date_text, timestamp_text, MAX_DATE_TIMESTAMP, MIN_DATE_TIMESTAMP};
use crate::usage::opt_view;
use vstd::prelude::*;

verus! {

/// An outbound email job: address, subject, plain text body and optional html body.
#[derive(Debug)]
pub struct EMail {
    pub address: String,
    pub subject: String,
    pub text: String,
    pub html: Option<String>,
}

/// Values for the html body of a password reset email.
#[derive(Default)]
pub struct EMailResetHtml<'a> {
    pub pub_url: &'a str,
    pub link: &'a str,
    pub exp: &'a str,
}

/// Values for the text body of a password reset email.
#[derive(Default)]
pub struct EmailResetTxt<'a> {
    pub pub_url: &'a str,
    pub link: &'a str,
    pub exp: &'a str,
}

/// Values for the html body of a password expiry notice.
#[derive(Default)]
pub struct EMailResetInfoHtml<'a> {
    pub pub_url: &'a str,
    pub link: &'a str,
    pub exp: &'a str,
}

/// Values for the text body of a password expiry notice.
#[derive(Default)]
pub struct EmailResetInfoTxt<'a> {
    pub pub_url: &'a str,
    pub link: &'a str,
    pub exp: &'a str,
}

/// The link, expiry text and subject that a notification email is built from.
#[derive(Debug)]
pub struct MailParts {
    pub link: String,
    pub exp: String,
    pub subject: String,
}

pub open spec fn reset_link_spec(issuer: Seq<char>, user_id: Seq<char>, id: Seq<char>) -> Seq<
    char,
> {
    issuer + "/users/"@ + user_id + "/reset/"@ + id
}

pub open spec fn reset_subject_spec(given_name: Seq<char>, family_name: Seq<char>) -> Seq<char> {
    "Password Reset Request - "@ + given_name + " "@ + family_name
}

pub open spec fn account_link_spec(public_url: Seq<char>) -> Seq<char> {
    public_url + "/auth/v1/account.html"@
}

pub open spec fn date_in_range(ts: i64) -> bool {
    MIN_DATE_TIMESTAMP <= ts <= MAX_DATE_TIMESTAMP
}

/// The address under which a link can be followed: `{issuer}/users/{user_id}/reset/{id}`.
pub fn reset_link(issuer: &str, user_id: &str, id: &str) -> (r: String)
    ensures
        r@ == reset_link_spec(issuer@, user_id@, id@),
{
    String::from_str(issuer).concat("/users/").concat(user_id).concat("/reset/").concat(id)
}

pub fn reset_subject(given_name: &str, family_name: &str) -> (r: String)
    ensures
        r@ == reset_subject_spec(given_name@, family_name@),
{
    String::from_str("Password Reset Request - ").concat(given_name).concat(" ").concat(
        family_name,
    )
}

/// The parts of a password reset email for the link `id` of `user_id` that
/// expires at `exp`; `None` when `exp` is no date that can be shown.
pub fn send_pwd_reset(
    issuer: &str,
    user_id: &str,
    id: &str,
    exp: i64,
    given_name: &str,
    family_name: &str,
) -> (r: Option<MailParts>)
    ensures
        date_in_range(exp) ==> r is Some,
        r is Some ==> ({
            let p = r->0;
            &&& p.link@ == reset_link_spec(issuer@, user_id@, id@)
            &&& p.exp@ == timestamp_text(exp)
            &&& p.subject@ == reset_subject_spec(given_name@, family_name@)
        }),
{
    match date_text(exp) {
        Some(exp_text) => Some(
            MailParts {
                link: reset_link(issuer, user_id, id),
                exp: exp_text,
                subject: reset_subject(given_name, family_name),
            },
        ),
        None => None,
    }
}

/// The parts of the notice that a password expires at `password_expires`;
/// `None` when no expiry is set or it is no date that can be shown.
pub fn send_pwd_reset_info(public_url: &str, password_expires: Option<i64>) -> (r: Option<
    MailParts,
>)
    ensures
        (password_expires is Some && date_in_range(password_expires->0)) ==> r is Some,
        password_expires is None ==> r is None,
        r is Some ==> ({
            let p = r->0;
            &&& p.link@ == account_link_spec(public_url@)
            &&& p.exp@ == timestamp_text(password_expires->0)
            &&& p.subject@ == "Password is about to expire"@
        }),
{
    match password_expires {
        None => None,
        Some(ts) => match date_text(ts) {
            Some(exp_text) => Some(
                MailParts {
                    link: String::from_str(public_url).concat("/auth/v1/account.html"),
                    exp: exp_text,
                    subject: String::from_str("Password is about to expire"),
                },
            ),
            None => None,
        },
    }
}

/// The email job for a notification built from `parts`, with its rendered
/// text and html bodies.
pub fn notification_job(address: &str, parts: MailParts, text: String, html: String) -> (r: EMail)
    ensures
        r.address@ == address@,
        r.subject@ == parts.subject@,
        r.text@ == text@,
        r.html is Some && r.html->0@ == html@,
{
    EMail { address: String::from_str(address), subject: parts.subject, text, html: Some(html) }
}

/// The message text to log when a job could not be queued in time; `None` when
/// it was queued.
pub fn enqueue_failure(accepted: bool, address: &str) -> (r: Option<String>)
    ensures
        accepted <==> r is None,
        r is Some ==> r->0@ == "Error sending magic link email request for user '"@ + address@
            + "'"@,
{
    if accepted {
        None
    } else {
        Some(
            String::from_str("Error sending magic link email request for user '").concat(
                address,
            ).concat("'"),
        )
    }
}

/// The body of an outgoing message.
#[derive(Debug)]
pub enum MailBody {
    /// A plain text part with an alternative html part.
    Alternative { text: String, html: String },
    /// A single plain text part.
    Plain(String),
}

/// A message ready to be handed to the mail relay.
#[derive(Debug)]
pub struct OutgoingMail {
    pub address: String,
    pub to: String,
    pub subject: String,
    pub body: MailBody,
}

/// What the notification worker does next.
#[derive(Debug)]
pub enum WorkerStep {
    /// The queue is closed: stop.
    Exit,
    /// Test mode: log the job's address and send nothing.
    LogOnly(String),
    /// Send the message over the relay.
    Send(OutgoingMail),
}

pub open spec fn recipient_spec(subject: Seq<char>, address: Seq<char>) -> Seq<char> {
    subject + " <"@ + address + ">"@
}

/// The step the worker takes for what the queue handed it (`None` once closed).
pub fn sender(job: Option<EMail>, test_mode: bool) -> (r: WorkerStep)
    ensures
        job is None <==> r is Exit,
        job is Some && test_mode ==> r == WorkerStep::LogOnly(job->0.address),
        job is Some && !test_mode ==> r is Send,
        r is Send ==> ({
            let j = job->0;
            let m = r->Send_0;
            &&& m.address@ == j.address@
            &&& m.to@ == recipient_spec(j.subject@, j.address@)
            &&& m.subject@ == j.subject@
            &&& match m.body {
                MailBody::Alternative { text, html } => j.html is Some && text@ == j.text@
                    && html@ == j.html->0@,
                MailBody::Plain(text) => j.html is None && text@ == j.text@,
            }
        }),
{
    match job {
        None => WorkerStep::Exit,
        Some(req) => {
            if test_mode {
                WorkerStep::LogOnly(req.address)
            } else {
                let to = req.subject.clone().concat(" <").concat(req.address.as_str()).concat(
                    ">",
                );
                let body = match req.html {
                    Some(html) => MailBody::Alternative { text: req.text, html },
                    None => MailBody::Plain(req.text),
                };
                WorkerStep::Send(
                    OutgoingMail { address: req.address, to, subject: req.subject, body },
                )
            }
        },
    }
}

} // verus!
