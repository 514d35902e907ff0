use vstd::prelude::*;

verus! {

#[verifier::external_type_specification]
#[verifier::external_body]
#[verifier::reject_recursive_types(T)]
pub struct ExHeaderMap<T>(reqwest::header::HeaderMap<T>);

#[verifier::external_type_specification]
#[verifier::external_body]
pub struct ExHeaderValue(reqwest::header::HeaderValue);

/// Relies on `Debug` of `reqwest::header::HeaderMap`: its entries as a map
/// literal.
#[verifier::external_body]
pub(crate) fn headers_debug_text(h: &reqwest::header::HeaderMap) -> String {
    format!("{:?}", h)
}

} // verus!
