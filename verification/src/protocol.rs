//! What the library takes from the HTTP crate: the name of the method it
//! uses and the one status it accepts.

use vstd::prelude::*;

verus! {

/// The name of the DELETE method, read from `hyper::Method::DELETE` with
/// `Method::as_str`. Trusted: that method spells the DELETE variant as the
/// six capital letters `DELETE`.
#[verifier::external_body]
pub(crate) fn delete_method_name() -> (name: String)
    ensures
        name@ == "DELETE"@,
{
    hyper::Method::DELETE.as_str().to_owned()
}

/// The number of the status "Accepted", read from
/// `hyper::StatusCode::ACCEPTED` with `StatusCode::as_u16`. Trusted: the
/// constant is declared with the number 202 and `as_u16` returns the number
/// a status was made with.
#[verifier::external_body]
pub(crate) fn accepted_status() -> (code: u16)
    ensures
        code == 202,
{
    hyper::StatusCode::ACCEPTED.as_u16()
}

} // verus!
