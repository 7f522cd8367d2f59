//! The validation engine: the authoritative ordered field checks run by the
//! server before anything is persisted, and the reduced advisory checks the
//! client runs while the user types.

use vstd::prelude::*;
use vstd::string::StrSliceExecFns;
use crate::error::ContactFormError;
use crate::text::{contains_char, trim, trim_of};

verus! {

/// The raw fields of a submission, exactly as the form sends them. A
/// checkbox sends a value when checked and nothing at all when not, so the
/// terms field records presence, not content.
#[derive(Debug, Clone, PartialEq, Eq)]
pub struct ContactFormData {
    pub message: String,
    pub email: String,
    pub terms: Option<String>,
}

impl ContactFormData {
    /// Whether the terms checkbox was checked: its value is irrelevant,
    /// only its presence counts.
    pub open spec fn terms_accepted(self) -> bool {
        self.terms is Some
    }
}

/// The shape check on a trimmed email: it contains an `@` that stands at
/// neither boundary.
pub open spec fn valid_email_shape(e: Seq<char>) -> bool {
    e.contains('@') && e.len() > 0 && e[0] != '@' && e[e.len() - 1] != '@'
}

/// The authoritative validation verdict, with the checks in their fixed
/// order. When several constraints are violated at once, the first check in
/// this order decides which error is reported.
pub open spec fn validate_spec(message: Seq<char>, email: Seq<char>, terms_accepted: bool) -> Result<
    (),
    ContactFormError,
> {
    let e = trim_of(email);
    let m = trim_of(message);
    if e.len() == 0 {
        Err(ContactFormError::MissingEmail)
    } else if m.len() == 0 {
        Err(ContactFormError::MissingMessage)
    } else if !terms_accepted {
        Err(ContactFormError::TermsNotAccepted)
    } else if e.len() > 254 {
        Err(ContactFormError::EmailTooLong)
    } else if m.len() > 5000 {
        Err(ContactFormError::MessageTooLong)
    } else if !valid_email_shape(e) {
        Err(ContactFormError::InvalidEmailFormat)
    } else {
        Ok(())
    }
}

/// Whether a trimmed email passes the shape check.
fn has_valid_email_shape(s: &str) -> (r: bool)
    ensures
        r == valid_email_shape(s@),
{
    let n = s.unicode_len();
    if n == 0 {
        return false;
    }
    if s.get_char(0) == '@' {
        return false;
    }
    if s.get_char(n - 1) == '@' {
        return false;
    }
    contains_char(s, '@')
}

/// The authoritative validation pass: trims both text fields and applies
/// the six checks in their fixed order, reporting the first failure.
pub fn validate(data: &ContactFormData) -> (r: Result<(), ContactFormError>)
    ensures
        r == validate_spec(data.message@, data.email@, data.terms_accepted()),
{
    let email_t = trim(data.email.as_str());
    let message_t = trim(data.message.as_str());
    let email_len = email_t.unicode_len();
    let message_len = message_t.unicode_len();
    if email_len == 0 {
        Err(ContactFormError::MissingEmail)
    } else if message_len == 0 {
        Err(ContactFormError::MissingMessage)
    } else if data.terms.is_none() {
        Err(ContactFormError::TermsNotAccepted)
    } else if email_len > 254 {
        Err(ContactFormError::EmailTooLong)
    } else if message_len > 5000 {
        Err(ContactFormError::MessageTooLong)
    } else if !has_valid_email_shape(email_t) {
        Err(ContactFormError::InvalidEmailFormat)
    } else {
        Ok(())
    }
}

/// The client's advisory message check: blank after trimming.
pub open spec fn client_message_empty(message: Seq<char>) -> bool {
    trim_of(message).len() == 0
}

/// The client's advisory email check: present and containing an `@`. It is
/// deliberately weaker than the server's shape check and runs on the
/// untrimmed value.
pub open spec fn client_email_invalid(email: Seq<char>) -> bool {
    email.len() == 0 || !email.contains('@')
}

/// The client's derived overall validity: message non-blank, email present
/// with an `@`, terms accepted. Advisory only; it gates the submit control
/// but never replaces the server pass.
pub open spec fn client_form_valid(message: Seq<char>, email: Seq<char>, terms_accepted: bool) -> bool {
    !client_message_empty(message) && !client_email_invalid(email) && terms_accepted
}

/// Whether the client's advisory message check fails.
pub fn message_is_empty(message: &str) -> (r: bool)
    ensures
        r == client_message_empty(message@),
{
    trim(message).unicode_len() == 0
}

/// Whether the client's advisory email check fails.
pub fn email_is_invalid_format(email: &str) -> (r: bool)
    ensures
        r == client_email_invalid(email@),
{
    email.unicode_len() == 0 || !contains_char(email, '@')
}

/// The client's derived overall validity flag.
pub fn is_form_valid(message: &str, email: &str, terms_accepted: bool) -> (r: bool)
    ensures
        r == client_form_valid(message@, email@, terms_accepted),
{
    !message_is_empty(message) && !email_is_invalid_format(email) && terms_accepted
}

/// The fixed priority of the checks: when an input violates several
/// constraints at once, the verdict is the first violated check in the
/// order email-presence, message-presence, terms, email-length,
/// message-length, email-shape.
pub proof fn lemma_validation_priority(message: Seq<char>, email: Seq<char>, terms_accepted: bool)
    ensures
        trim_of(email).len() == 0 ==> validate_spec(message, email, terms_accepted) == Err::<
            (),
            ContactFormError,
        >(ContactFormError::MissingEmail),
        trim_of(email).len() > 0 && trim_of(message).len() == 0 ==> validate_spec(
            message,
            email,
            terms_accepted,
        ) == Err::<(), ContactFormError>(ContactFormError::MissingMessage),
        trim_of(email).len() > 0 && trim_of(message).len() > 0 && !terms_accepted
            ==> validate_spec(message, email, terms_accepted) == Err::<(), ContactFormError>(
            ContactFormError::TermsNotAccepted,
        ),
        trim_of(email).len() > 254 && trim_of(message).len() > 0 && terms_accepted
            ==> validate_spec(message, email, terms_accepted) == Err::<(), ContactFormError>(
            ContactFormError::EmailTooLong,
        ),
        0 < trim_of(email).len() <= 254 && trim_of(message).len() > 5000 && terms_accepted
            ==> validate_spec(message, email, terms_accepted) == Err::<(), ContactFormError>(
            ContactFormError::MessageTooLong,
        ),
        0 < trim_of(email).len() <= 254 && 0 < trim_of(message).len() <= 5000 && terms_accepted
            && !valid_email_shape(trim_of(email)) ==> validate_spec(message, email, terms_accepted)
            == Err::<(), ContactFormError>(ContactFormError::InvalidEmailFormat),
        0 < trim_of(email).len() <= 254 && 0 < trim_of(message).len() <= 5000 && terms_accepted
            && valid_email_shape(trim_of(email)) ==> validate_spec(message, email, terms_accepted)
            == Ok::<(), ContactFormError>(()),
{
}

/// The length boundaries are sharp: a trimmed email of exactly 254
/// characters passes the length check while 255 fails it, and a trimmed
/// message of exactly 5000 characters passes while 5001 fails, the other
/// checks being satisfied.
pub proof fn lemma_length_boundaries(message: Seq<char>, email: Seq<char>, terms_accepted: bool)
    ensures
        trim_of(email).len() == 254 && 0 < trim_of(message).len() <= 5000 && terms_accepted
            && valid_email_shape(trim_of(email)) ==> validate_spec(message, email, terms_accepted)
            == Ok::<(), ContactFormError>(()),
        trim_of(email).len() == 255 && trim_of(message).len() > 0 && terms_accepted
            ==> validate_spec(message, email, terms_accepted) == Err::<(), ContactFormError>(
            ContactFormError::EmailTooLong,
        ),
        0 < trim_of(email).len() <= 254 && trim_of(message).len() == 5000 && terms_accepted
            && valid_email_shape(trim_of(email)) ==> validate_spec(message, email, terms_accepted)
            == Ok::<(), ContactFormError>(()),
        0 < trim_of(email).len() <= 254 && trim_of(message).len() == 5001 && terms_accepted
            ==> validate_spec(message, email, terms_accepted) == Err::<(), ContactFormError>(
            ContactFormError::MessageTooLong,
        ),
{
}


} // verus!
