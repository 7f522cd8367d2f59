use tivanderit::error::ContactFormError;
use tivanderit::submit::{
    accepts_json, begin_submission, error_redirect_target, finish_submission,
    success_redirect_target, PersistOutcome, ResponsePlan, StoredContact, SubmitStep,
};
use tivanderit::validate::ContactFormData;

fn data(message: &str, email: &str, terms: Option<&str>) -> ContactFormData {
    ContactFormData {
        message: message.to_string(),
        email: email.to_string(),
        terms: terms.map(|t| t.to_string()),
    }
}

#[test]
fn accept_header_negotiation() {
    assert!(!accepts_json(None));
    assert!(!accepts_json(Some("text/html")));
    assert!(accepts_json(Some("application/json")));
    assert!(accepts_json(Some("text/html, application/json;q=0.9")));
    assert!(!accepts_json(Some("application/jso")));
}

#[test]
fn redirect_targets_encode_the_outcome() {
    assert_eq!(success_redirect_target(), "/?status=success#contact");
    assert_eq!(
        error_redirect_target(&ContactFormError::MissingMessage),
        "/?error=MissingMessage#contact"
    );
    assert_eq!(
        error_redirect_target(&ContactFormError::DatabaseError("detalj".to_string())),
        "/?error=DatabaseError#contact"
    );
}

#[test]
fn valid_submission_reaches_persistence_with_the_trimmed_row() {
    let step = begin_submission(&data("  Hej!  ", " a@b.se ", Some("on")));
    assert_eq!(
        step,
        SubmitStep::Persist(StoredContact {
            email: "a@b.se".to_string(),
            message: "Hej!".to_string(),
        })
    );
}

#[test]
fn successful_persist_answers_a_structured_client_without_redirect() {
    let step = begin_submission(&data("Hej!", "a@b.se", Some("on")));
    assert!(matches!(step, SubmitStep::Persist(_)));
    let plan = finish_submission(PersistOutcome::Inserted, true);
    assert_eq!(plan, ResponsePlan { redirect: None, result: Ok(()) });
}

#[test]
fn successful_persist_redirects_a_plain_client() {
    let plan = finish_submission(PersistOutcome::Inserted, false);
    assert_eq!(
        plan,
        ResponsePlan {
            redirect: Some("/?status=success#contact".to_string()),
            result: Ok(()),
        }
    );
}

#[test]
fn empty_message_is_rejected_before_persistence_for_both_clients() {
    let step = begin_submission(&data("", "a@b.se", Some("on")));
    match step {
        SubmitStep::Persist(_) => panic!("an invalid submission must never reach persistence"),
        SubmitStep::Reject(plan) => {
            assert_eq!(plan.result, Err(ContactFormError::MissingMessage));
            assert_eq!(
                plan.redirect,
                Some("/?error=MissingMessage#contact".to_string())
            );
        }
    }
}

#[test]
fn malformed_email_is_rejected_with_the_shape_error() {
    let step = begin_submission(&data("hi", "not-an-email", Some("on")));
    match step {
        SubmitStep::Persist(_) => panic!("an invalid submission must never reach persistence"),
        SubmitStep::Reject(plan) => {
            assert_eq!(plan.result, Err(ContactFormError::InvalidEmailFormat));
            assert_eq!(
                plan.redirect,
                Some("/?error=InvalidEmailFormat#contact".to_string())
            );
        }
    }
}

#[test]
fn unavailable_datastore_surfaces_a_generic_database_error() {
    let plan = finish_submission(PersistOutcome::ConnectionFailed, true);
    assert_eq!(
        plan.result,
        Err(ContactFormError::DatabaseError(
            "Kunde inte ansluta till databasen.".to_string()
        ))
    );
    assert_eq!(
        plan.redirect,
        Some("/?error=DatabaseError#contact".to_string())
    );
}

#[test]
fn failed_insert_carries_the_storage_detail_in_the_structured_result() {
    let plan = finish_submission(
        PersistOutcome::InsertFailed("disk full".to_string()),
        false,
    );
    assert_eq!(
        plan.result,
        Err(ContactFormError::DatabaseError("disk full".to_string()))
    );
    // Only the identifier crosses the redirect boundary, never the detail.
    assert_eq!(
        plan.redirect,
        Some("/?error=DatabaseError#contact".to_string())
    );
}

#[test]
fn resubmitting_the_same_input_persists_two_independent_rows() {
    let mut stored_rows: Vec<StoredContact> = Vec::new();
    for _ in 0..2 {
        let step = begin_submission(&data("Hej!", "a@b.se", Some("on")));
        match step {
            SubmitStep::Persist(row) => {
                stored_rows.push(row);
                let plan = finish_submission(PersistOutcome::Inserted, true);
                assert_eq!(plan.result, Ok(()));
            }
            SubmitStep::Reject(_) => panic!("a valid submission must reach persistence"),
        }
    }
    assert_eq!(stored_rows.len(), 2);
    assert_eq!(stored_rows[0], stored_rows[1]);
}
