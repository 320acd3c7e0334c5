//! HTTP status codes as the gateway uses them.

use axum::http::StatusCode;
use vstd::prelude::*;

verus! {

/// The request succeeded.
pub const OK: u16 = 200;

/// The request named an image that the caller may not deploy.
pub const BAD_REQUEST: u16 = 400;

/// The bearer token is missing or was rejected.
pub const UNAUTHORIZED: u16 = 401;

/// The caller is known but may not do what was asked.
pub const FORBIDDEN: u16 = 403;

/// The workload does not exist in the cluster.
pub const NOT_FOUND: u16 = 404;

/// The gateway or one of its collaborators failed.
pub const INTERNAL_SERVER_ERROR: u16 = 500;

/// Whether `code` is a status code that HTTP can carry: three digits.
pub open spec fn is_status_code(code: u16) -> bool {
    100 <= code <= 999
}

/// Whether `code` reports success: the range 200 to 299.
pub open spec fn is_success(code: u16) -> bool {
    200 <= code <= 299
}

/// `StatusCode::from_u16`, read back with `StatusCode::as_u16`: the status
/// under which an error that the cluster reported with `code` is passed on,
/// or `None` where `code` is no HTTP status.
///
/// Trusted: `from_u16` accepts exactly the codes from 100 to 999, and the
/// status it returns holds the number it was made from.
#[verifier::external_body]
pub(crate) fn relayed_status(code: u16) -> (status: Option<u16>)
    ensures
        status == if is_status_code(code) {
            Some(code)
        } else {
            None::<u16>
        },
{
    match StatusCode::from_u16(code) {
        Ok(status) => Some(status.as_u16()),
        Err(_) => None,
    }
}

/// `StatusCode::is_success`, on the status that `StatusCode::from_u16` makes
/// of `code`: whether an answer that came with `code` reports success.
///
/// Trusted: a status is a success exactly from 200 to 299, and a number that
/// is no status is none.
#[verifier::external_body]
pub(crate) fn reports_success(code: u16) -> (success: bool)
    ensures
        success == is_success(code),
{
    match StatusCode::from_u16(code) {
        Ok(status) => status.is_success(),
        Err(_) => false,
    }
}

} // verus!
