//! The password-reset request: generate a single-use verification code,
//! build the reset URL, and record the code only once the reset email has
//! actually gone out.
//!
//! Delivery itself is the caller's collaborator (an SMTP transport): the
//! caller first prepares the code and URL, attempts delivery, and then
//! commits the outcome here, so an undeliverable code is never persisted.

use vstd::prelude::*;

use rand::Rng;

use crate::model::email_taken;
use crate::model::emails_unique;
use crate::model::find_by_email;
use crate::model::is_first_email_match;
use crate::model::lemma_update_same_email_keeps_unique;
use crate::model::User;
use crate::model::UserData;

verus! {

use vstd::string::StringExecFns;

/// The length of a verification code.
pub const VERIFICATION_CODE_LEN: usize = 100;

/// The path parameter of the reset-request endpoint.
pub struct EmailParam {
    pub email: String,
}

/// The outcome of a reset request, as the transport layer reports it.
pub struct SendEmailResponse {
    pub status_code: u16,
    pub message: String,
}

/// An ASCII letter or digit.
pub open spec fn ascii_alphanumeric(c: char) -> bool {
    ('0' <= c && c <= '9') || ('A' <= c && c <= 'Z') || ('a' <= c && c <= 'z')
}

/// Relies on `rand::thread_rng` sampling the `Alphanumeric` distribution:
/// a fresh high-entropy string of ASCII letters and digits. Nothing more
/// can be promised of a random value.
#[verifier::external_body]
fn random_alphanumeric_code(len: usize) -> (r: String)
    ensures
        r@.len() == len,
        forall|i: int| 0 <= i < r@.len() ==> ascii_alphanumeric(r@[i]),
{
    rand::thread_rng().sample_iter(&rand::distributions::Alphanumeric).take(len).map(
        char::from,
    ).collect()
}

/// Begin a password reset: check the email belongs to a record, draw a
/// fresh verification code and build the reset URL that embeds the email
/// and the code. Nothing is stored yet; the caller attempts delivery and
/// then calls `send_email` with the outcome.
pub fn prepare_password_reset(data: &UserData, email: &String, base_url: &String) -> (r: Option<
    (String, String),
>)
    ensures
        r is Some <==> email_taken(data.people@, email@),
        r matches Some((code, url)) ==> {
            &&& code@.len() == VERIFICATION_CODE_LEN
            &&& (forall|i: int| 0 <= i < code@.len() ==> ascii_alphanumeric(code@[i]))
            &&& url@ == base_url@ + "/"@ + email@ + "/"@ + code@
        },
{
    if find_by_email(&data.people, email).is_none() {
        return None;
    }
    let code = random_alphanumeric_code(VERIFICATION_CODE_LEN);
    let url = base_url.clone().concat("/").concat(email.as_str()).concat("/").concat(
        code.as_str(),
    );
    Some((code, url))
}

/// Commit the outcome of a reset request over the exclusively borrowed
/// directory snapshot: only when the reset email was delivered is the
/// verification code stored on the matching record, so a code nobody
/// received can never authorize a reset.
pub fn send_email(data: &mut UserData, email: &String, code: &String, delivered: bool) -> (r:
    SendEmailResponse)
    ensures
        !email_taken(old(data).people@, email@) ==> {
            &&& *final(data) == *old(data)
            &&& r.status_code == 400
            &&& r.message@ == "A user with this email does not exist"@
        },
        email_taken(old(data).people@, email@) && !delivered ==> {
            &&& *final(data) == *old(data)
            &&& r.status_code == 500
            &&& r.message@ == "Failed to send email"@
        },
        email_taken(old(data).people@, email@) && delivered ==> {
            &&& r.status_code == 200
            &&& r.message@ == "Email sent successfully!"@
            &&& final(data).total_records == old(data).total_records
            &&& forall|i: int|
                is_first_email_match(old(data).people@, email@, i)
                    ==> final(data).people@ == old(data).people@.update(
                    i,
                    User {
                        name: old(data).people@[i].name,
                        username: old(data).people@[i].username,
                        password: old(data).people@[i].password,
                        email: old(data).people@[i].email,
                        verification_code: Some(*code),
                    },
                )
        },
        emails_unique(old(data).people@) ==> emails_unique(final(data).people@),
{
    let idx = match find_by_email(&data.people, email) {
        Some(i) => i,
        None => {
            return SendEmailResponse {
                status_code: 400,
                message: "A user with this email does not exist".to_owned(),
            };
        },
    };
    if !delivered {
        return SendEmailResponse {
            status_code: 500,
            message: "Failed to send email".to_owned(),
        };
    }
    data.people[idx].verification_code = Some(code.clone());
    proof {
        if emails_unique(old(data).people@) {
            lemma_update_same_email_keeps_unique(
                old(data).people@,
                idx as int,
                data.people@[idx as int],
            );
        }
    }
    SendEmailResponse { status_code: 200, message: "Email sent successfully!".to_owned() }
}

} // verus!
