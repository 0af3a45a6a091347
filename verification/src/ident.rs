//! Identifiers of submissions and documents: random UUIDs in their textual form.

use vstd::prelude::*;

verus! {

/// `uuid::Uuid`, of which nothing is read here: it is what a successful
/// parse returns.
#[verifier::external_type_specification]
#[verifier::external_body]
pub struct ExUuid(uuid::Uuid);

/// `uuid::Error`, of which nothing is read here: it is what a failed parse
/// returns.
#[verifier::external_type_specification]
#[verifier::external_body]
pub struct ExUuidError(uuid::Error);

/// A decimal digit or a letter `a` to `f` in either case.
pub open spec fn is_hex_digit(c: char) -> bool {
    ('0' as u32 <= c as u32 <= '9' as u32) || ('a' as u32 <= c as u32 <= 'f' as u32) || ('A' as u32
        <= c as u32 <= 'F' as u32)
}

/// A decimal digit or a lower-case letter `a` to `f`.
pub open spec fn is_lower_hex_digit(c: char) -> bool {
    ('0' as u32 <= c as u32 <= '9' as u32) || ('a' as u32 <= c as u32 <= 'f' as u32)
}

/// Whether `i` is one of the four places of a hyphen in the 36-character form.
pub open spec fn is_hyphen_place(i: int) -> bool {
    i == 8 || i == 13 || i == 18 || i == 23
}

/// Thirty-two hexadecimal digits.
pub open spec fn spec_is_simple_uuid(s: Seq<char>) -> bool {
    s.len() == 32 && forall|i: int| 0 <= i < 32 ==> is_hex_digit(#[trigger] s[i])
}

/// Five groups of 8, 4, 4, 4 and 12 hexadecimal digits, separated by hyphens.
pub open spec fn spec_is_hyphenated_uuid(s: Seq<char>) -> bool {
    s.len() == 36 && forall|i: int|
        0 <= i < 36 ==> if is_hyphen_place(i) {
            #[trigger] s[i] == '-'
        } else {
            is_hex_digit(s[i])
        }
}

/// The hyphenated form between braces.
pub open spec fn spec_is_braced_uuid(s: Seq<char>) -> bool {
    s.len() == 38 && s[0] == '{' && s[37] == '}' && spec_is_hyphenated_uuid(s.subrange(1, 37))
}

/// Whether `s` spells `urn:uuid:`, in any mix of cases.
pub open spec fn spec_is_urn_prefix(s: Seq<char>) -> bool {
    &&& s.len() == 9
    &&& (s[0] == 'u' || s[0] == 'U')
    &&& (s[1] == 'r' || s[1] == 'R')
    &&& (s[2] == 'n' || s[2] == 'N')
    &&& s[3] == ':'
    &&& (s[4] == 'u' || s[4] == 'U')
    &&& (s[5] == 'u' || s[5] == 'U')
    &&& (s[6] == 'i' || s[6] == 'I')
    &&& (s[7] == 'd' || s[7] == 'D')
    &&& s[8] == ':'
}

/// The hyphenated form after `urn:uuid:`.
pub open spec fn spec_is_urn_uuid(s: Seq<char>) -> bool {
    s.len() == 45 && spec_is_urn_prefix(s.subrange(0, 9)) && spec_is_hyphenated_uuid(
        s.subrange(9, 45),
    )
}

/// The texts that are read as a UUID: the simple, hyphenated, braced and URN forms.
pub open spec fn spec_is_uuid_text(s: Seq<char>) -> bool {
    spec_is_simple_uuid(s) || spec_is_hyphenated_uuid(s) || spec_is_braced_uuid(s)
        || spec_is_urn_uuid(s)
}

/// The form in which identifiers are issued: hyphenated, with lower-case digits.
pub open spec fn spec_is_issued_identifier(s: Seq<char>) -> bool {
    s.len() == 36 && forall|i: int|
        0 <= i < 36 ==> if is_hyphen_place(i) {
            #[trigger] s[i] == '-'
        } else {
            is_lower_hex_digit(s[i])
        }
}

/// Every issued identifier is read back as a UUID.
pub proof fn lemma_issued_identifier_is_uuid_text(s: Seq<char>)
    requires
        spec_is_issued_identifier(s),
    ensures
        spec_is_uuid_text(s),
{
    assert forall|i: int| 0 <= i < 36 implies if is_hyphen_place(i) {
        #[trigger] s[i] == '-'
    } else {
        is_hex_digit(s[i])
    } by {
        if !is_hyphen_place(i) {
            assert(is_lower_hex_digit(s[i]));
        }
    }
}

/// Calls `uuid::Uuid::parse_str`. The parser accepts exactly the simple form
/// (32 hexadecimal digits), the hyphenated form, the hyphenated form in
/// braces, and the hyphenated form after `urn:uuid:` in any case; the claim
/// here is that it returns `Ok` on those texts and on no other.
#[verifier::external_body]
fn parse_uuid(text: &str) -> (r: Result<uuid::Uuid, uuid::Error>)
    ensures
        r is Ok <==> spec_is_uuid_text(text@),
{
    uuid::Uuid::parse_str(text)
}

/// Calls `uuid::Uuid::new_v4` and formats the result with its `Display`
/// impl, which writes the hyphenated form in lower case. Nothing is claimed
/// of the digits, which are random. The call aborts where the operating
/// system cannot supply random bytes.
#[verifier::external_body]
fn random_uuid_text() -> (r: String)
    ensures
        spec_is_issued_identifier(r@),
{
    uuid::Uuid::new_v4().to_string()
}

/// Whether `text` is read as a UUID.
pub fn is_uuid_text(text: &str) -> (r: bool)
    ensures
        r == spec_is_uuid_text(text@),
{
    parse_uuid(text).is_ok()
}

/// A new random identifier. Two calls may return any two identifiers.
pub fn fresh_identifier() -> (r: String)
    ensures
        spec_is_issued_identifier(r@),
        spec_is_uuid_text(r@),
{
    let id = random_uuid_text();
    proof {
        lemma_issued_identifier_is_uuid_text(id@);
    }
    id
}

} // verus!
