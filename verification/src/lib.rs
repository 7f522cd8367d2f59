//! Contact-submission pipeline: validation, error taxonomy, client form
//! state, and server response negotiation for a contact form.
//!
//! The library is pure: persistence and HTTP transport are left to the
//! embedding application, which drives the functions here with plain values
//! and carries out the redirects and inserts they decide on.

pub mod error;
pub mod text;
pub mod validate;
pub mod form_state;
pub mod submit;
