//! Decisions around single cars: looking one up, updating, and removing it,
//! and the summary of a late return.

use vstd::prelude::*;
use crate::http::{HttpStatus, RequestFailure};
use crate::numtext::{signed_decimal, i64_to_text};
use crate::text::{occurs_in, text_contains, lemma_occurs_in_itself};
use crate::json::json_string_field_object;
use crate::clock::{DateTimeValue, nanos_between, whole_hours, hours_between};

verus! {

/// Builds a `serde_json::Value` object with the one field `key` holding the
/// string `value` and writes it with `to_string`: `{`, the key and the value
/// as JSON strings around a colon, `}`, without spaces.
#[verifier::external_body]
fn string_field_object_text(key: &str, value: &str) -> (res: String)
    ensures
        res@ == json_string_field_object(key@, value@),
{
    let mut object = serde_json::Map::new();
    object.insert(key.to_string(), serde_json::Value::String(value.to_string()));
    serde_json::Value::Object(object).to_string()
}

/// The refusal for a car that does not exist.
pub open spec fn car_missing(f: RequestFailure, id: i32) -> bool {
    f.status == HttpStatus::NotFound && f.message@ == "Car with ID "@ + signed_decimal(id as int) + " not found"@
}

/// Refuses a request for the car `id`, which does not exist.
pub fn car_not_found(id: i32) -> (res: RequestFailure)
    ensures
        car_missing(res, id),
{
    let n = i64_to_text(id as i64);
    RequestFailure {
        status: HttpStatus::NotFound,
        message: String::from_str("Car with ID ").concat(n.as_str()).concat(" not found"),
    }
}

/// The car an update names; an update without one is refused.
pub fn require_car_id(id: Option<i32>) -> (res: Result<i32, String>)
    ensures
        (match id {
            Some(i) => res == Ok::<i32, String>(i),
            None => res matches Err(m) && m@ == "차량 ID가 필요합니다"@,
        }),
{
    match id {
        Some(i) => Ok(i),
        None => Err(String::from_str("차량 ID가 필요합니다")),
    }
}

/// The answer to an update once the store reported on it.
pub fn car_update_answer(updated: Result<(), String>) -> (res: Result<String, String>)
    ensures
        (match updated {
            Ok(()) => res matches Ok(m) && m@ == "Car updated successfully"@,
            Err(e) => res matches Err(m) && m@ == e@,
        }),
{
    match updated {
        Ok(()) => Ok(String::from_str("Car updated successfully")),
        Err(e) => Err(e),
    }
}

/// What removing a car asks of the store once the car was looked up.
pub enum RemovalStep {
    /// Remove the car.
    Remove,
    /// Refuse.
    Refuse(RequestFailure),
}

/// Decides a removal once the car was looked up (its owner, where the car
/// exists): only the owner may remove a car.
pub fn removal_after_lookup(car_id: i32, user_id: i32, found: Result<Option<Option<i32>>, String>) -> (res: RemovalStep)
    requires
        found matches Ok(Some(owner)) ==> owner is Some,
    ensures
        (match found {
            Err(_) => res matches RemovalStep::Refuse(f) && f.status == HttpStatus::InternalServerError
                && f.message@ == "Error retrieving car"@,
            Ok(None) => res matches RemovalStep::Refuse(f) && car_missing(f, car_id),
            Ok(Some(owner)) => if owner.unwrap() != user_id {
                res matches RemovalStep::Refuse(f) && f.status == HttpStatus::Forbidden
                    && f.message@ == "You do not have permission to delete this car."@
            } else {
                res is Remove
            },
        }),
{
    match found {
        Err(_) => RemovalStep::Refuse(RequestFailure {
            status: HttpStatus::InternalServerError,
            message: String::from_str("Error retrieving car"),
        }),
        Ok(None) => RemovalStep::Refuse(car_not_found(car_id)),
        Ok(Some(owner)) => {
            let o = match owner {
                Some(o) => o,
                None => user_id,
            };
            if o != user_id {
                RemovalStep::Refuse(RequestFailure {
                    status: HttpStatus::Forbidden,
                    message: String::from_str("You do not have permission to delete this car."),
                })
            } else {
                RemovalStep::Remove
            }
        },
    }
}

/// The message sent where a car cannot be removed because it is reserved.
pub open spec fn reserved_phrase() -> Seq<char> {
    "차량이 예약중입니다"@
}

/// The line that confirms a removal with the store's message `m`.
pub open spec fn success_line(m: Seq<char>) -> Seq<char> {
    "{\"status\": \"success\", \"message\": \""@ + m + "\"}"@
}

/// The answer once the store reported on a removal: a JSON-like success
/// line with the store's message; a failure that mentions the car being
/// reserved is answered with that phrase alone, as a JSON object.
pub fn removal_answer(removed: Result<String, String>) -> (res: Result<String, RequestFailure>)
    ensures
        removed matches Ok(m) ==> (res matches Ok(t) && t@ == success_line(m@)),
        removed matches Err(e) ==> (res matches Err(f) && f.status == HttpStatus::InternalServerError
            && f.message@ == (if occurs_in(reserved_phrase(), e@) { json_string_field_object("message"@, reserved_phrase()) } else { e@ })),
{
    match &removed {
        Ok(m) => {
            proof {
                reveal_strlit("{\"status\": \"success\", \"message\": \"");
                reveal_strlit("\"}");
            }
            let line = String::from_str("{\"status\": \"success\", \"message\": \"").concat(m.as_str()).concat("\"}");
            assert(line@ == success_line(m@));
            Ok(line)
        },
        Err(e) => {
            let message = if text_contains(e.as_str(), "차량이 예약중입니다") {
                String::from_str("차량이 예약중입니다")
            } else {
                e.clone()
            };
            proof {
                lemma_occurs_in_itself(reserved_phrase());
            }
            let sent = if text_contains(message.as_str(), "차량이 예약중입니다") {
                string_field_object_text("message", message.as_str())
            } else {
                message
            };
            proof {
                if !occurs_in(reserved_phrase(), e@) {
                    assert(sent@ == e@);
                }
            }
            Err(RequestFailure { status: HttpStatus::InternalServerError, message: sent })
        },
    }
}

/// What the page on a late return shows besides the dates and the base fee.
pub struct OverdueFacts {
    /// The maker and the model, separated by a space.
    pub car_info: String,
    /// Whole hours between the due time and the actual return (0 where the
    /// car is not back).
    pub overdue_hours: i64,
    /// The late fee charged (0 where none was recorded).
    pub total_overdue_fee: i32,
}

/// Summarises a late return.
pub fn overdue_facts(
    manufacturer: &str,
    model: &str,
    due: DateTimeValue,
    returned: Option<DateTimeValue>,
    fee: Option<i32>,
) -> (res: OverdueFacts)
    ensures
        res.car_info@ == manufacturer@ + " "@ + model@,
        res.overdue_hours as int == (match returned {
            Some(r) => whole_hours(nanos_between(due, r)),
            None => 0,
        }),
        res.total_overdue_fee == (match fee {
            Some(f) => f,
            None => 0,
        }),
{
    let hours = match returned {
        Some(r) => hours_between(due, r),
        None => 0,
    };
    let total = match fee {
        Some(f) => f,
        None => 0,
    };
    OverdueFacts {
        car_info: String::from_str(manufacturer).concat(" ").concat(model),
        overdue_hours: hours,
        total_overdue_fee: total,
    }
}

} // verus!
