//! Response statuses, failures, and the caller's identity.

use vstd::prelude::*;
use crate::numtext::{parse_i32, i32_from_text};

verus! {

/// The HTTP statuses that the service answers with.
#[derive(Clone, Copy, Debug, PartialEq, Eq, Structural)]
pub enum HttpStatus {
    Success,
    BadRequest,
    Unauthorized,
    Forbidden,
    NotFound,
    InternalServerError,
}

/// A request about one reservation: returning or canceling it.
pub struct ReservationActionRequest {
    pub reservation_id: String,
}

/// A request for a reservation together with one of its payments.
pub struct ReservationQuery {
    pub reservation_id: String,
    pub payment_id: String,
}

/// A refused or failed request: its status and the message sent with it.
pub struct RequestFailure {
    pub status: HttpStatus,
    pub message: String,
}

/// A failure whose message is `prefix` followed by the underlying error text.
pub open spec fn failure_with(f: RequestFailure, status: HttpStatus, prefix: Seq<char>, detail: Seq<char>) -> bool {
    f.status == status && f.message@ == prefix + detail
}

/// Builds a failure with the message `prefix` followed by `detail`.
pub fn failure(status: HttpStatus, prefix: &str, detail: &str) -> (res: RequestFailure)
    ensures
        failure_with(res, status, prefix@, detail@),
{
    RequestFailure { status, message: String::from_str(prefix).concat(detail) }
}

/// The user that a token's subject names: the subject read as an `i32`;
/// a subject that is no such number is refused as unauthorized with the
/// message `Invalid token`.
pub fn user_id_from_subject(subject: &str) -> (res: Result<i32, RequestFailure>)
    ensures
        res matches Ok(id) ==> i32_from_text(subject@) == Some(id as int),
        res matches Err(f) ==> i32_from_text(subject@) is None && f.status == HttpStatus::Unauthorized
            && f.message@ == "Invalid token"@,
{
    match parse_i32(subject) {
        Some(id) => Ok(id),
        None => Err(RequestFailure { status: HttpStatus::Unauthorized, message: String::from_str("Invalid token") }),
    }
}

} // verus!
