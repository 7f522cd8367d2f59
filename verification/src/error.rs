//! The closed taxonomy of submission failures: six user-correctable
//! validation errors and one infrastructure error.
//!
//! Each kind has a stable wire identifier (a pure function of the variant
//! tag, used in redirect URLs) and a localized user-facing message.

use vstd::prelude::*;
use vstd::string::StringExecFns;
use crate::text::str_eq;

verus! {

/// Why a contact submission was rejected.
#[derive(Debug, Clone, PartialEq, Eq)]
pub enum ContactFormError {
    MissingEmail,
    InvalidEmailFormat,
    EmailTooLong,
    MessageTooLong,
    MissingMessage,
    TermsNotAccepted,
    /// The payload is a server-internal detail; it never crosses the
    /// redirect boundary, only the identifier does.
    DatabaseError(String),
}

/// The stable wire identifier of a kind: a pure function of the variant tag,
/// independent of any payload.
pub open spec fn identifier_spec(k: ContactFormError) -> Seq<char> {
    match k {
        ContactFormError::MissingEmail => "MissingEmail"@,
        ContactFormError::InvalidEmailFormat => "InvalidEmailFormat"@,
        ContactFormError::EmailTooLong => "EmailTooLong"@,
        ContactFormError::MessageTooLong => "MessageTooLong"@,
        ContactFormError::MissingMessage => "MissingMessage"@,
        ContactFormError::TermsNotAccepted => "TermsNotAccepted"@,
        ContactFormError::DatabaseError(_) => "DatabaseError"@,
    }
}

/// The localized user-facing message of a kind; static per variant except
/// for DatabaseError, which interpolates its detail.
pub open spec fn user_message_spec(k: ContactFormError) -> Seq<char> {
    match k {
        ContactFormError::MissingEmail => "Ange en email-adress."@,
        ContactFormError::InvalidEmailFormat => "Ange en giltig email-adress."@,
        ContactFormError::EmailTooLong => "E-postadressen är för lång (max 254 tecken)."@,
        ContactFormError::MessageTooLong => "Meddelandet är för långt (max 5000 tecken)."@,
        ContactFormError::MissingMessage => "Meddelandet får inte vara tomt."@,
        ContactFormError::TermsNotAccepted => "Du måste acceptera villkoren för att skicka meddelandet."@,
        ContactFormError::DatabaseError(s) => "Ett serverfel uppstod: "@ + s@,
    }
}

/// Whether `s` is one of the seven wire identifiers.
pub open spec fn is_known_identifier(s: Seq<char>) -> bool {
    ||| s == "MissingEmail"@
    ||| s == "InvalidEmailFormat"@
    ||| s == "EmailTooLong"@
    ||| s == "MessageTooLong"@
    ||| s == "MissingMessage"@
    ||| s == "TermsNotAccepted"@
    ||| s == "DatabaseError"@
}

/// `k` is the kind that parsing the identifier `s` yields. The identifiers
/// are tried in a fixed order; `DatabaseError` is reconstructed with a
/// generic placeholder detail, since the real detail never travels through
/// the redirect channel.
pub open spec fn parse_result_ok(s: Seq<char>, k: ContactFormError) -> bool {
    if s == "MissingEmail"@ {
        k == ContactFormError::MissingEmail
    } else if s == "InvalidEmailFormat"@ {
        k == ContactFormError::InvalidEmailFormat
    } else if s == "EmailTooLong"@ {
        k == ContactFormError::EmailTooLong
    } else if s == "MessageTooLong"@ {
        k == ContactFormError::MessageTooLong
    } else if s == "MissingMessage"@ {
        k == ContactFormError::MissingMessage
    } else if s == "TermsNotAccepted"@ {
        k == ContactFormError::TermsNotAccepted
    } else if s == "DatabaseError"@ {
        k matches ContactFormError::DatabaseError(d) && d@ == "Okänt databasfel"@
    } else {
        false
    }
}

/// Two kinds have the same variant tag, payloads ignored.
pub open spec fn same_tag(a: ContactFormError, b: ContactFormError) -> bool {
    match a {
        ContactFormError::MissingEmail => b is MissingEmail,
        ContactFormError::InvalidEmailFormat => b is InvalidEmailFormat,
        ContactFormError::EmailTooLong => b is EmailTooLong,
        ContactFormError::MessageTooLong => b is MessageTooLong,
        ContactFormError::MissingMessage => b is MissingMessage,
        ContactFormError::TermsNotAccepted => b is TermsNotAccepted,
        ContactFormError::DatabaseError(_) => b is DatabaseError,
    }
}

impl ContactFormError {
    /// The stable wire identifier, as used in redirect URLs.
    pub fn identifier(&self) -> (r: String)
        ensures
            r@ == identifier_spec(*self),
    {
        match self {
            ContactFormError::MissingEmail => "MissingEmail".to_owned(),
            ContactFormError::InvalidEmailFormat => "InvalidEmailFormat".to_owned(),
            ContactFormError::EmailTooLong => "EmailTooLong".to_owned(),
            ContactFormError::MessageTooLong => "MessageTooLong".to_owned(),
            ContactFormError::MissingMessage => "MissingMessage".to_owned(),
            ContactFormError::TermsNotAccepted => "TermsNotAccepted".to_owned(),
            ContactFormError::DatabaseError(_) => "DatabaseError".to_owned(),
        }
    }

    /// The localized message shown to the user.
    pub fn get_user_message(&self) -> (r: String)
        ensures
            r@ == user_message_spec(*self),
    {
        match self {
            ContactFormError::MissingEmail => "Ange en email-adress.".to_owned(),
            ContactFormError::InvalidEmailFormat => "Ange en giltig email-adress.".to_owned(),
            ContactFormError::EmailTooLong => "E-postadressen är för lång (max 254 tecken).".to_owned(),
            ContactFormError::MessageTooLong => "Meddelandet är för långt (max 5000 tecken).".to_owned(),
            ContactFormError::MissingMessage => "Meddelandet får inte vara tomt.".to_owned(),
            ContactFormError::TermsNotAccepted => "Du måste acceptera villkoren för att skicka meddelandet.".to_owned(),
            ContactFormError::DatabaseError(s) => "Ett serverfel uppstod: ".to_owned().concat(s.as_str()),
        }
    }

    /// Decodes a wire identifier back into a kind. Accepts exactly the seven
    /// identifiers; `DatabaseError` comes back with a placeholder detail.
    pub fn from_str(s: &str) -> (r: Result<ContactFormError, String>)
        ensures
            r is Ok <==> is_known_identifier(s@),
            r matches Ok(k) ==> parse_result_ok(s@, k),
            r matches Err(m) ==> m@ == "Okänt felvariantnamn kunde inte parsas: "@ + s@,
    {
        if str_eq(s, "MissingEmail") {
            Ok(ContactFormError::MissingEmail)
        } else if str_eq(s, "InvalidEmailFormat") {
            Ok(ContactFormError::InvalidEmailFormat)
        } else if str_eq(s, "EmailTooLong") {
            Ok(ContactFormError::EmailTooLong)
        } else if str_eq(s, "MessageTooLong") {
            Ok(ContactFormError::MessageTooLong)
        } else if str_eq(s, "MissingMessage") {
            Ok(ContactFormError::MissingMessage)
        } else if str_eq(s, "TermsNotAccepted") {
            Ok(ContactFormError::TermsNotAccepted)
        } else if str_eq(s, "DatabaseError") {
            Ok(ContactFormError::DatabaseError("Okänt databasfel".to_owned()))
        } else {
            Err("Okänt felvariantnamn kunde inte parsas: ".to_owned().concat(s))
        }
    }
}

/// Round trip on the tag: parsing the identifier of any kind succeeds, and
/// any kind it yields has the same variant tag as the original. Only the tag
/// survives the trip; the detail of `DatabaseError` is replaced by a
/// placeholder.
pub proof fn lemma_identifier_round_trip(k: ContactFormError, p: ContactFormError)
    requires
        parse_result_ok(identifier_spec(k), p),
    ensures
        is_known_identifier(identifier_spec(k)),
        same_tag(p, k),
{
    reveal_strlit("MissingEmail");
    reveal_strlit("InvalidEmailFormat");
    reveal_strlit("EmailTooLong");
    reveal_strlit("MessageTooLong");
    reveal_strlit("MissingMessage");
    reveal_strlit("TermsNotAccepted");
    reveal_strlit("DatabaseError");
    assert("MissingEmail"@.len() == 12);
    assert("InvalidEmailFormat"@.len() == 18);
    assert("EmailTooLong"@.len() == 12);
    assert("MessageTooLong"@.len() == 14);
    assert("MissingMessage"@.len() == 14);
    assert("TermsNotAccepted"@.len() == 16);
    assert("DatabaseError"@.len() == 13);
    match k {
        ContactFormError::MissingEmail => {
            assert(same_tag(p, k));
        }
        ContactFormError::InvalidEmailFormat => {
            assert(same_tag(p, k));
        }
        ContactFormError::EmailTooLong => {
            assert("MissingEmail"@[0] != "EmailTooLong"@[0]);
            assert(same_tag(p, k));
        }
        ContactFormError::MessageTooLong => {
            assert(same_tag(p, k));
        }
        ContactFormError::MissingMessage => {
            assert("MessageTooLong"@[1] != "MissingMessage"@[1]);
            assert(same_tag(p, k));
        }
        ContactFormError::TermsNotAccepted => {
            assert(same_tag(p, k));
        }
        ContactFormError::DatabaseError(_) => {
            assert(same_tag(p, k));
        }
    }
}

} // verus!
