use vstd::prelude::*;

verus! {

/// The canonical reason phrase that `http::StatusCode` gives `status`, or
/// `None` where it knows none.
pub uninterp spec fn canonical_reason(status: u16) -> Option<Seq<char>>;

/// Relies on `StatusCode::from_u16`, which accepts exactly the codes
/// 100..=999, and on `StatusCode::canonical_reason` for the phrase.
#[verifier::external_body]
pub(crate) fn status_reason(status: u16) -> (r: Option<String>)
    requires
        100 <= status <= 999,
    ensures
        text_of_reason(r) == canonical_reason(status),
{
    reqwest::StatusCode::from_u16(status).ok().and_then(|s| s.canonical_reason()).map(String::from)
}

/// The text of an optional reason phrase.
pub open spec fn text_of_reason(r: Option<String>) -> Option<Seq<char>> {
    match r {
        Some(t) => Some(t@),
        None => None,
    }
}

} // verus!
