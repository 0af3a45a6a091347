//! The rules that the fields of a request are held to.

use vstd::prelude::*;

verus! {

/// Whether `text` is accepted as an e-mail address: a local part and a
/// domain in the forms that HTML5 admits for an e-mail input.
pub uninterp spec fn email_is_accepted(text: Seq<char>) -> bool;

/// Calls `ValidateEmail::validate_email` of the `validator` crate on the
/// text. The result is a function of the text alone; the claim here is only
/// that it is the acceptance named above.
#[verifier::external_body]
fn validate_email(text: &str) -> (r: bool)
    ensures
        r == email_is_accepted(text@),
{
    validator::ValidateEmail::validate_email(&text)
}

/// Whether `text` is accepted as an e-mail address.
pub fn is_email(text: &str) -> (r: bool)
    ensures
        r == email_is_accepted(text@),
{
    validate_email(text)
}

/// Whether `text` has at least `least` characters.
pub fn has_length_of(text: &str, least: usize) -> (r: bool)
    ensures
        r == (text@.len() >= least),
{
    text.unicode_len() >= least
}

} // verus!
