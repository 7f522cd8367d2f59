//! The client-side submission orchestrator: the whole form UI state and a
//! single explicit transition function over it, driven by field edits,
//! blurs, submit, and the submission outcome.
//!
//! Per-field error display is a closed dispatch: each field owns a fixed
//! set of error tags, and any other kind is shown as a page-level general
//! error.

use vstd::prelude::*;
use crate::error::{ContactFormError, is_known_identifier, parse_result_ok};
use crate::text::str_eq;
use crate::validate::{
    client_email_invalid,
    client_form_valid,
    client_message_empty,
    email_is_invalid_format,
    is_form_valid,
    message_is_empty,
};

verus! {

/// Everything the form controller tracks: field values, touched flags,
/// whether a submission is in flight, and the outcome currently displayed.
#[derive(Debug, Clone, PartialEq, Eq)]
pub struct FormUiState {
    pub message: String,
    pub email: String,
    pub terms_accepted: bool,
    pub message_touched: bool,
    pub email_touched: bool,
    pub pending: bool,
    pub error: Option<ContactFormError>,
    /// Empty when no success message is displayed.
    pub success_message: String,
}

/// What can happen to the form: the user edits or leaves a field, submits,
/// or the in-flight submission resolves.
#[derive(Debug, Clone, PartialEq, Eq)]
pub enum FormEvent {
    EditMessage(String),
    EditEmail(String),
    EditTerms(bool),
    BlurMessage,
    BlurEmail,
    Submit,
    SubmissionSucceeded,
    SubmissionFailed(ContactFormError),
}

/// The four phases of the submission life cycle, derived from the state.
#[derive(Debug, Clone, Copy, PartialEq, Eq)]
pub enum FormStatus {
    Idle,
    Pending,
    Succeeded,
    Failed,
}

/// The localized text shown after a successful submission.
pub open spec fn success_text() -> Seq<char> {
    "Ditt meddelande är mottaget. Vi återkopplar snart."@
}

/// The phase a state is in: in flight, failed (an error is displayed),
/// succeeded (a success message is displayed), or idle.
pub open spec fn status_of(s: FormUiState) -> FormStatus {
    if s.pending {
        FormStatus::Pending
    } else if s.error is Some {
        FormStatus::Failed
    } else if s.success_message@.len() > 0 {
        FormStatus::Succeeded
    } else {
        FormStatus::Idle
    }
}

/// The complete transition relation of the form. While a submission is
/// pending the inputs are disabled, so user events leave the state alone;
/// an edit that changes a tracked value clears any displayed error; a
/// submit is accepted only when the advisory checks pass; success clears
/// the fields, failure keeps them so the user can correct them.
pub open spec fn transition(pre: FormUiState, ev: FormEvent, post: FormUiState) -> bool {
    match ev {
        FormEvent::EditMessage(v) => if pre.pending {
            post == pre
        } else {
            &&& post.message == v
            &&& post.email == pre.email
            &&& post.terms_accepted == pre.terms_accepted
            &&& post.message_touched == pre.message_touched
            &&& post.email_touched == pre.email_touched
            &&& post.pending == pre.pending
            &&& post.error == (if v@ == pre.message@ {
                pre.error
            } else {
                Option::<ContactFormError>::None
            })
            &&& post.success_message == pre.success_message
        },
        FormEvent::EditEmail(v) => if pre.pending {
            post == pre
        } else {
            &&& post.message == pre.message
            &&& post.email == v
            &&& post.terms_accepted == pre.terms_accepted
            &&& post.message_touched == pre.message_touched
            &&& post.email_touched == pre.email_touched
            &&& post.pending == pre.pending
            &&& post.error == (if v@ == pre.email@ {
                pre.error
            } else {
                Option::<ContactFormError>::None
            })
            &&& post.success_message == pre.success_message
        },
        FormEvent::EditTerms(b) => if pre.pending {
            post == pre
        } else {
            &&& post.message == pre.message
            &&& post.email == pre.email
            &&& post.terms_accepted == b
            &&& post.message_touched == pre.message_touched
            &&& post.email_touched == pre.email_touched
            &&& post.pending == pre.pending
            &&& post.error == (if b == pre.terms_accepted {
                pre.error
            } else {
                Option::<ContactFormError>::None
            })
            &&& post.success_message == pre.success_message
        },
        FormEvent::BlurMessage => if pre.pending {
            post == pre
        } else {
            post == FormUiState { message_touched: true, ..pre }
        },
        FormEvent::BlurEmail => if pre.pending {
            post == pre
        } else {
            post == FormUiState { email_touched: true, ..pre }
        },
        FormEvent::Submit => if !pre.pending && client_form_valid(
            pre.message@,
            pre.email@,
            pre.terms_accepted,
        ) {
            post == FormUiState { pending: true, ..pre }
        } else {
            post == pre
        },
        FormEvent::SubmissionSucceeded => if pre.pending {
            &&& post.message@ == Seq::<char>::empty()
            &&& post.email@ == Seq::<char>::empty()
            &&& post.terms_accepted == false
            &&& post.message_touched == false
            &&& post.email_touched == false
            &&& post.pending == false
            &&& post.error is None
            &&& post.success_message@ == success_text()
        } else {
            post == pre
        },
        FormEvent::SubmissionFailed(k) => if pre.pending {
            &&& post.message == pre.message
            &&& post.email == pre.email
            &&& post.terms_accepted == pre.terms_accepted
            &&& post.message_touched == pre.message_touched
            &&& post.email_touched == pre.email_touched
            &&& post.pending == false
            &&& post.error == Some(k)
            &&& post.success_message@ == Seq::<char>::empty()
        } else {
            post == pre
        },
    }
}

/// The submission life cycle over the four phases: a submit on a form that
/// is not in flight and passes the advisory checks makes it pending; a
/// pending form resolves through its outcome, success showing the success
/// text with cleared fields and failure showing the error with the fields
/// kept.
pub proof fn lemma_submission_life_cycle(pre: FormUiState, ev: FormEvent, post: FormUiState)
    requires
        transition(pre, ev, post),
    ensures
        ev is Submit && status_of(pre) !is Pending && client_form_valid(
            pre.message@,
            pre.email@,
            pre.terms_accepted,
        ) ==> status_of(post) is Pending,
        ev is SubmissionSucceeded && status_of(pre) is Pending ==> status_of(post) is Succeeded,
        ev matches FormEvent::SubmissionFailed(k) ==> (status_of(pre) is Pending ==> status_of(
            post,
        ) is Failed && post.error == Some(k)),
{
    reveal_strlit("Ditt meddelande är mottaget. Vi återkopplar snart.");
}

/// Applies one event to the form state and returns the next state, as the
/// transition relation prescribes.
pub fn apply_event(state: FormUiState, ev: FormEvent) -> (r: FormUiState)
    ensures
        transition(state, ev, r),
{
    match ev {
        FormEvent::EditMessage(v) => {
            if state.pending {
                state
            } else {
                let unchanged = str_eq(v.as_str(), state.message.as_str());
                let error = if unchanged {
                    state.error
                } else {
                    None
                };
                FormUiState { message: v, error, ..state }
            }
        },
        FormEvent::EditEmail(v) => {
            if state.pending {
                state
            } else {
                let unchanged = str_eq(v.as_str(), state.email.as_str());
                let error = if unchanged {
                    state.error
                } else {
                    None
                };
                FormUiState { email: v, error, ..state }
            }
        },
        FormEvent::EditTerms(b) => {
            if state.pending {
                state
            } else {
                let error = if b == state.terms_accepted {
                    state.error
                } else {
                    None
                };
                FormUiState { terms_accepted: b, error, ..state }
            }
        },
        FormEvent::BlurMessage => {
            if state.pending {
                state
            } else {
                FormUiState { message_touched: true, ..state }
            }
        },
        FormEvent::BlurEmail => {
            if state.pending {
                state
            } else {
                FormUiState { email_touched: true, ..state }
            }
        },
        FormEvent::Submit => {
            if !state.pending && is_form_valid(
                state.message.as_str(),
                state.email.as_str(),
                state.terms_accepted,
            ) {
                FormUiState { pending: true, ..state }
            } else {
                state
            }
        },
        FormEvent::SubmissionSucceeded => {
            if state.pending {
                FormUiState {
                    message: String::new(),
                    email: String::new(),
                    terms_accepted: false,
                    message_touched: false,
                    email_touched: false,
                    pending: false,
                    error: None,
                    success_message: "Ditt meddelande är mottaget. Vi återkopplar snart.".to_owned(),
                }
            } else {
                state
            }
        },
        FormEvent::SubmissionFailed(k) => {
            if state.pending {
                FormUiState {
                    pending: false,
                    error: Some(k),
                    success_message: String::new(),
                    ..state
                }
            } else {
                state
            }
        },
    }
}

/// The state a freshly loaded page starts in, seeded from the decoded
/// query parameters of a redirect: a `success` status marker seeds the
/// success message, a recognized error identifier seeds the displayed
/// error, and anything else starts idle.
pub fn initial_state(status: Option<&str>, error: Option<&str>) -> (r: FormUiState)
    ensures
        r.message@ == Seq::<char>::empty(),
        r.email@ == Seq::<char>::empty(),
        r.terms_accepted == false,
        r.message_touched == false,
        r.email_touched == false,
        r.pending == false,
        r.success_message@ == (if status matches Some(s) && s@ == "success"@ {
            success_text()
        } else {
            Seq::<char>::empty()
        }),
        match error {
            Some(es) => if is_known_identifier(es@) {
                r.error matches Some(k) && parse_result_ok(es@, k)
            } else {
                r.error is None
            },
            None => r.error is None,
        },
{
    let success_message = match status {
        Some(s) => if str_eq(s, "success") {
            "Ditt meddelande är mottaget. Vi återkopplar snart.".to_owned()
        } else {
            String::new()
        },
        None => String::new(),
    };
    let error_kind = match error {
        Some(es) => match ContactFormError::from_str(es) {
            Ok(k) => Some(k),
            Err(_) => None,
        },
        None => None,
    };
    FormUiState {
        message: String::new(),
        email: String::new(),
        terms_accepted: false,
        message_touched: false,
        email_touched: false,
        pending: false,
        error: error_kind,
        success_message,
    }
}

/// Error tags owned by the message field.
pub open spec fn message_field_error_kind(k: ContactFormError) -> bool {
    k is MissingMessage || k is MessageTooLong
}

/// Error tags owned by the email field.
pub open spec fn email_field_error_kind(k: ContactFormError) -> bool {
    k is MissingEmail || k is InvalidEmailFormat || k is EmailTooLong
}

/// Error tags owned by the terms checkbox.
pub open spec fn terms_field_error_kind(k: ContactFormError) -> bool {
    k is TermsNotAccepted
}

/// Kinds no field owns; they are displayed as a page-level general error.
pub open spec fn general_error_kind(k: ContactFormError) -> bool {
    !message_field_error_kind(k) && !email_field_error_kind(k) && !terms_field_error_kind(k)
}

/// Whether the message field displays the current error.
pub fn shows_message_field_error(s: &FormUiState) -> (r: bool)
    ensures
        r == (s.error matches Some(k) && message_field_error_kind(k)),
{
    match &s.error {
        Some(ContactFormError::MissingMessage) => true,
        Some(ContactFormError::MessageTooLong) => true,
        _ => false,
    }
}

/// Whether the email field displays the current error.
pub fn shows_email_field_error(s: &FormUiState) -> (r: bool)
    ensures
        r == (s.error matches Some(k) && email_field_error_kind(k)),
{
    match &s.error {
        Some(ContactFormError::MissingEmail) => true,
        Some(ContactFormError::InvalidEmailFormat) => true,
        Some(ContactFormError::EmailTooLong) => true,
        _ => false,
    }
}

/// Whether the terms checkbox displays the current error.
pub fn shows_terms_field_error(s: &FormUiState) -> (r: bool)
    ensures
        r == (s.error matches Some(k) && terms_field_error_kind(k)),
{
    match &s.error {
        Some(ContactFormError::TermsNotAccepted) => true,
        _ => false,
    }
}

/// Whether the page-level general error is displayed: an error is present
/// and no field owns its tag (notably `DatabaseError`).
pub fn shows_general_error(s: &FormUiState) -> (r: bool)
    ensures
        r == (s.error matches Some(k) && general_error_kind(k)),
{
    match &s.error {
        Some(ContactFormError::DatabaseError(_)) => true,
        Some(_) => false,
        None => false,
    }
}

/// Whether the inline hint under the message field is shown: the field was
/// touched and the advisory check fails.
pub fn show_message_hint(s: &FormUiState) -> (r: bool)
    ensures
        r == (s.message_touched && client_message_empty(s.message@)),
{
    s.message_touched && message_is_empty(s.message.as_str())
}

/// Whether the inline hint under the email field is shown.
pub fn show_email_hint(s: &FormUiState) -> (r: bool)
    ensures
        r == (s.email_touched && client_email_invalid(s.email@)),
{
    s.email_touched && email_is_invalid_format(s.email.as_str())
}

/// Whether the submit control is disabled: a submission is in flight or
/// the advisory checks fail.
pub fn submit_disabled(s: &FormUiState) -> (r: bool)
    ensures
        r == (s.pending || !client_form_valid(s.message@, s.email@, s.terms_accepted)),
{
    s.pending || !is_form_valid(s.message.as_str(), s.email.as_str(), s.terms_accepted)
}

/// The label of the submit control: a sending variant while in flight.
pub fn submit_label(s: &FormUiState) -> (r: String)
    ensures
        r@ == (if s.pending {
            "Skickar..."@
        } else {
            "Skicka"@
        }),
{
    if s.pending {
        "Skickar...".to_owned()
    } else {
        "Skicka".to_owned()
    }
}

} // verus!
