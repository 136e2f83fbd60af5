use vstd::prelude::*;

verus! {

/// Whether a string is a well-formed email address, as the `validator`
/// crate's HTML5-flavoured check decides it. The decision depends on the
/// characters alone; this library never looks inside it.
pub uninterp spec fn valid_email(s: Seq<char>) -> bool;

/// Relies on `validator::ValidateEmail::validate_email` for `&str`:
/// a deterministic well-formedness check of the characters alone.
#[verifier::external_body]
pub(crate) fn email_is_valid(email: &str) -> (r: bool)
    ensures
        r == valid_email(email@),
{
    validator::ValidateEmail::validate_email(&email)
}

/// Relies on `uuid::Uuid::new_v4` and its `Display` form: a freshly drawn
/// random identifier, rendered as the 36-character hyphenated text.
/// The value is random, so nothing relates two calls; only the length
/// of the rendering is promised.
#[verifier::external_body]
pub(crate) fn new_session_id() -> (r: String)
    ensures
        r@.len() == 36,
{
    uuid::Uuid::new_v4().to_string()
}

} // verus!
