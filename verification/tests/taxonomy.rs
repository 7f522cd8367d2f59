use tivanderit::error::ContactFormError;

fn all_kinds() -> Vec<ContactFormError> {
    vec![
        ContactFormError::MissingEmail,
        ContactFormError::InvalidEmailFormat,
        ContactFormError::EmailTooLong,
        ContactFormError::MessageTooLong,
        ContactFormError::MissingMessage,
        ContactFormError::TermsNotAccepted,
        ContactFormError::DatabaseError("detalj".to_string()),
    ]
}

#[test]
fn identifiers_are_stable() {
    assert_eq!(ContactFormError::MissingEmail.identifier(), "MissingEmail");
    assert_eq!(ContactFormError::InvalidEmailFormat.identifier(), "InvalidEmailFormat");
    assert_eq!(ContactFormError::EmailTooLong.identifier(), "EmailTooLong");
    assert_eq!(ContactFormError::MessageTooLong.identifier(), "MessageTooLong");
    assert_eq!(ContactFormError::MissingMessage.identifier(), "MissingMessage");
    assert_eq!(ContactFormError::TermsNotAccepted.identifier(), "TermsNotAccepted");
    assert_eq!(
        ContactFormError::DatabaseError("whatever".to_string()).identifier(),
        "DatabaseError"
    );
}

#[test]
fn identifier_ignores_database_error_detail() {
    let a = ContactFormError::DatabaseError("one".to_string());
    let b = ContactFormError::DatabaseError("two".to_string());
    assert_eq!(a.identifier(), b.identifier());
}

#[test]
fn user_messages_are_localized() {
    assert_eq!(ContactFormError::MissingEmail.get_user_message(), "Ange en email-adress.");
    assert_eq!(
        ContactFormError::InvalidEmailFormat.get_user_message(),
        "Ange en giltig email-adress."
    );
    assert_eq!(
        ContactFormError::EmailTooLong.get_user_message(),
        "E-postadressen är för lång (max 254 tecken)."
    );
    assert_eq!(
        ContactFormError::MessageTooLong.get_user_message(),
        "Meddelandet är för långt (max 5000 tecken)."
    );
    assert_eq!(
        ContactFormError::MissingMessage.get_user_message(),
        "Meddelandet får inte vara tomt."
    );
    assert_eq!(
        ContactFormError::TermsNotAccepted.get_user_message(),
        "Du måste acceptera villkoren för att skicka meddelandet."
    );
}

#[test]
fn database_error_message_interpolates_detail() {
    let k = ContactFormError::DatabaseError("kopplingen dog".to_string());
    assert_eq!(k.get_user_message(), "Ett serverfel uppstod: kopplingen dog");
}

#[test]
fn parse_accepts_exactly_the_seven_identifiers() {
    assert_eq!(
        ContactFormError::from_str("MissingEmail"),
        Ok(ContactFormError::MissingEmail)
    );
    assert_eq!(
        ContactFormError::from_str("InvalidEmailFormat"),
        Ok(ContactFormError::InvalidEmailFormat)
    );
    assert_eq!(
        ContactFormError::from_str("EmailTooLong"),
        Ok(ContactFormError::EmailTooLong)
    );
    assert_eq!(
        ContactFormError::from_str("MessageTooLong"),
        Ok(ContactFormError::MessageTooLong)
    );
    assert_eq!(
        ContactFormError::from_str("MissingMessage"),
        Ok(ContactFormError::MissingMessage)
    );
    assert_eq!(
        ContactFormError::from_str("TermsNotAccepted"),
        Ok(ContactFormError::TermsNotAccepted)
    );
    assert_eq!(
        ContactFormError::from_str("DatabaseError"),
        Ok(ContactFormError::DatabaseError("Okänt databasfel".to_string()))
    );
}

#[test]
fn parse_rejects_unknown_identifiers() {
    let r = ContactFormError::from_str("Whatever");
    assert_eq!(
        r,
        Err("Okänt felvariantnamn kunde inte parsas: Whatever".to_string())
    );
    assert!(ContactFormError::from_str("").is_err());
    assert!(ContactFormError::from_str("missingemail").is_err());
    assert!(ContactFormError::from_str("MissingEmail ").is_err());
}

#[test]
fn identifier_parse_round_trips_on_tag() {
    for k in all_kinds() {
        let parsed = ContactFormError::from_str(&k.identifier()).unwrap();
        assert_eq!(
            std::mem::discriminant(&parsed),
            std::mem::discriminant(&k)
        );
    }
}

#[test]
fn database_error_round_trip_uses_placeholder_detail() {
    let k = ContactFormError::DatabaseError("hemlig detalj".to_string());
    let parsed = ContactFormError::from_str(&k.identifier()).unwrap();
    assert_eq!(
        parsed,
        ContactFormError::DatabaseError("Okänt databasfel".to_string())
    );
}
