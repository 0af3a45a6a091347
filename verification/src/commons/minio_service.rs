//! The object store: the fixed terms of its URLs and uploads.

use vstd::prelude::*;
use crate::text::chars_of;

verus! {

/// The validity of a view URL, in seconds.
pub const VIEW_URL_TTL_SECONDS: u64 = 3600;

/// The content type that a view URL answers with.
pub open spec fn spec_view_content_type() -> Seq<char> {
    "image/jpg"@
}

/// The content type that an upload URL accepts.
pub open spec fn spec_upload_content_type() -> Seq<char> {
    "image/jpeg"@
}

/// The content type that a view URL answers with.
pub fn view_content_type() -> (r: &'static str)
    ensures
        r@ == spec_view_content_type(),
{
    "image/jpg"
}

/// The content type that an upload URL accepts.
pub fn upload_content_type() -> (r: &'static str)
    ensures
        r@ == spec_upload_content_type(),
{
    "image/jpeg"
}

/// `s` without the slashes at its end.
pub open spec fn spec_without_trailing_slashes(s: Seq<char>) -> Seq<char>
    decreases s.len(),
{
    if s.len() > 0 && s.last() == '/' {
        spec_without_trailing_slashes(s.drop_last())
    } else {
        s
    }
}

/// The slashes after the last other character are what
/// [`spec_without_trailing_slashes`] removes.
proof fn lemma_without_trailing_slashes(s: Seq<char>, b: int)
    requires
        0 <= b <= s.len(),
        forall|i: int| b <= i < s.len() ==> #[trigger] s[i] == '/',
        0 < b ==> s[b - 1] != '/',
    ensures
        spec_without_trailing_slashes(s) == s.subrange(0, b),
    decreases s.len() - b,
{
    if b == s.len() {
        assert(s.subrange(0, s.len() as int) =~= s);
    } else {
        let rest = s.drop_last();
        lemma_without_trailing_slashes(rest, b);
        assert(rest.subrange(0, b) =~= s.subrange(0, b));
    }
}

/// The endpoint of the object store as it is used: without slashes at its end.
pub fn normalize_endpoint(endpoint: &str) -> (r: String)
    ensures
        r@ == spec_without_trailing_slashes(endpoint@),
{
    let chars = chars_of(endpoint);
    let mut b: usize = chars.len();
    while b > 0 && chars[b - 1] == '/'
        invariant
            b <= chars@.len(),
            forall|i: int| b <= i < chars@.len() ==> #[trigger] chars@[i] == '/',
        decreases b,
    {
        b -= 1;
    }
    proof {
        lemma_without_trailing_slashes(endpoint@, b as int);
    }
    endpoint.substring_char(0, b).to_owned()
}

} // verus!
