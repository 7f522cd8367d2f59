//! The server side of a submission: the persistence gateway's error
//! mapping and the response negotiator.
//!
//! The functions here only decide; the embedding application carries the
//! decisions out. A submission is handled in two steps: `begin_submission`
//! validates and either rejects or hands back the row to insert, and
//! `finish_submission` turns the insert's outcome and the client's content
//! negotiation into the response.

use vstd::prelude::*;
use vstd::string::StringExecFns;
use crate::error::{ContactFormError, identifier_spec};
use crate::text::{contains_substring, has_substring, trim, trim_of};
use crate::validate::{validate, validate_spec, ContactFormData};

verus! {

/// The row that reaches storage: the validated, trimmed fields. Row
/// identity and timestamps are storage-layer concerns.
#[derive(Debug, Clone, PartialEq, Eq)]
pub struct StoredContact {
    pub email: String,
    pub message: String,
}

/// What the datastore reported back for one insert attempt.
#[derive(Debug, Clone, PartialEq, Eq)]
pub enum PersistOutcome {
    Inserted,
    ConnectionFailed,
    /// Carries the underlying storage error's description.
    InsertFailed(String),
}

/// The negotiated response: an optional redirect for script-disabled
/// clients, and the structured result for script-enabled ones. Both are
/// always produced together on failure.
#[derive(Debug, PartialEq, Eq)]
pub struct ResponsePlan {
    pub redirect: Option<String>,
    pub result: Result<(), ContactFormError>,
}

/// The decision after authoritative validation: reject with a response, or
/// go on to persist this row.
#[derive(Debug, PartialEq, Eq)]
pub enum SubmitStep {
    Reject(ResponsePlan),
    Persist(StoredContact),
}

/// The redirect target that encodes a failure: the contact anchor of the
/// origin page with the error's identifier as a query parameter.
pub open spec fn error_redirect_spec(k: ContactFormError) -> Seq<char> {
    "/?error="@ + identifier_spec(k) + "#contact"@
}

/// The redirect target that encodes success.
pub open spec fn success_redirect_spec() -> Seq<char> {
    "/?status=success#contact"@
}

/// A plan that rejects with kind `k`: the structured result carries `k`
/// and the redirect encodes `k`'s identifier.
pub open spec fn rejection_plan(p: ResponsePlan, k: ContactFormError) -> bool {
    &&& p.redirect matches Some(u) && u@ == error_redirect_spec(k)
    &&& p.result == Err::<(), ContactFormError>(k)
}

/// Builds the failure redirect target for a kind.
pub fn error_redirect_target(k: &ContactFormError) -> (r: String)
    ensures
        r@ == error_redirect_spec(*k),
{
    let id = k.identifier();
    "/?error=".to_owned().concat(id.as_str()).concat("#contact")
}

/// Builds the success redirect target.
pub fn success_redirect_target() -> (r: String)
    ensures
        r@ == success_redirect_spec(),
{
    "/?status=success#contact".to_owned()
}

/// Whether the request's Accept header declares that the client handles a
/// structured (JSON) response.
pub fn accepts_json(accept_header: Option<&str>) -> (r: bool)
    ensures
        r == (accept_header matches Some(h) && has_substring(h@, "application/json"@)),
{
    match accept_header {
        Some(h) => contains_substring(h, "application/json"),
        None => false,
    }
}

/// Runs the authoritative validation over a submission. A failure is turned
/// into its full response at once — redirect and structured error, so the
/// answer is right whether or not the client executes script — and the
/// datastore is never reached. Only a submission that passes every check
/// goes on to persistence, as the trimmed row to insert.
pub fn begin_submission(data: &ContactFormData) -> (r: SubmitStep)
    ensures
        match validate_spec(data.message@, data.email@, data.terms_accepted()) {
            Ok(()) => r matches SubmitStep::Persist(c) && c.email@ == trim_of(data.email@)
                && c.message@ == trim_of(data.message@),
            Err(k) => r matches SubmitStep::Reject(p) && rejection_plan(p, k),
        },
{
    match validate(data) {
        Ok(()) => {
            let email = trim(data.email.as_str()).to_owned();
            let message = trim(data.message.as_str()).to_owned();
            SubmitStep::Persist(StoredContact { email, message })
        },
        Err(k) => {
            let url = error_redirect_target(&k);
            SubmitStep::Reject(ResponsePlan { redirect: Some(url), result: Err(k) })
        },
    }
}

/// Turns the insert's outcome into the response. Success answers a
/// structured-response client with the bare result and anyone else with the
/// success redirect; any storage failure maps to `DatabaseError` — a
/// connection failure with a fixed description, an insert failure with the
/// storage error's own — and produces both the structured error and the
/// generic failure redirect.
pub fn finish_submission(outcome: PersistOutcome, accepts_structured: bool) -> (r: ResponsePlan)
    ensures
        outcome is Inserted ==> {
            &&& r.result == Ok::<(), ContactFormError>(())
            &&& accepts_structured ==> r.redirect is None
            &&& !accepts_structured ==> (r.redirect matches Some(u) && u@
                == success_redirect_spec())
        },
        outcome is ConnectionFailed ==> (r.result matches Err(k) && (k matches
            ContactFormError::DatabaseError(d) && d@ == "Kunde inte ansluta till databasen."@)
            && rejection_plan(r, k)),
        outcome matches PersistOutcome::InsertFailed(detail) ==> (r.result matches Err(k) && (k
            matches ContactFormError::DatabaseError(d) && d == detail) && rejection_plan(r, k)),
{
    match outcome {
        PersistOutcome::Inserted => {
            if accepts_structured {
                ResponsePlan { redirect: None, result: Ok(()) }
            } else {
                ResponsePlan { redirect: Some(success_redirect_target()), result: Ok(()) }
            }
        },
        PersistOutcome::ConnectionFailed => {
            let k = ContactFormError::DatabaseError("Kunde inte ansluta till databasen.".to_owned());
            let url = error_redirect_target(&k);
            ResponsePlan { redirect: Some(url), result: Err(k) }
        },
        PersistOutcome::InsertFailed(detail) => {
            let k = ContactFormError::DatabaseError(detail);
            let url = error_redirect_target(&k);
            ResponsePlan { redirect: Some(url), result: Err(k) }
        },
    }
}

/// The datastore modeled as the sequence of its rows, each a pair of email
/// and message; an insert appends one row.
pub open spec fn insert_row(
    rows: Seq<(Seq<char>, Seq<char>)>,
    email: Seq<char>,
    message: Seq<char>,
) -> Seq<(Seq<char>, Seq<char>)> {
    rows.push((email, message))
}

/// Submitting the same valid input twice persists two independent rows:
/// validation depends on the input alone, so the second pass reaches the
/// datastore exactly as the first did, and nothing anywhere deduplicates.
pub proof fn lemma_duplicate_submission_persists_twice(
    rows: Seq<(Seq<char>, Seq<char>)>,
    message: Seq<char>,
    email: Seq<char>,
    terms_accepted: bool,
)
    requires
        validate_spec(message, email, terms_accepted) is Ok,
    ensures
        ({
            let once = insert_row(rows, trim_of(email), trim_of(message));
            let twice = insert_row(once, trim_of(email), trim_of(message));
            &&& twice.len() == rows.len() + 2
            &&& twice[rows.len() as int] == (trim_of(email), trim_of(message))
            &&& twice[rows.len() as int + 1] == (trim_of(email), trim_of(message))
        }),
{
}

} // verus!
