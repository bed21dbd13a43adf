//! The workflow that takes a car back: inside one transaction the
//! reservation is looked up, the caller's ownership is checked, a late return
//! is charged, the return is recorded and the car is made available again.

use vstd::prelude::*;
use crate::http::HttpStatus;
use crate::cancel_unpaid::released_status;
use crate::clock::{DateTimeValue, earlier, nanos_between, whole_hours, is_earlier, hours_between, utc_now};

verus! {

/// The answer to a return: a message, and the late fee where there is one.
pub struct ReturnApiResponse {
    pub message: String,
    pub overdue_fee: Option<i32>,
}

/// What the reservation holds for a return: its owner, its car, and when
/// the car was due back.
#[derive(Clone, Copy, Debug, PartialEq, Eq, Structural)]
pub struct ReturnRecord {
    pub user_id: i32,
    pub car_id: i32,
    pub return_date: DateTimeValue,
}

/// The status a returned reservation is left in: `overdue` where a fee is
/// owed, `completed` otherwise.
pub open spec fn returned_status(fee: int) -> Seq<char> {
    if fee > 0 { "overdue"@ } else { "completed"@ }
}

/// The answer to a return with late fee `fee`.
pub open spec fn return_answer(fee: int, r: ReturnApiResponse) -> bool {
    if fee > 0 {
        r.message@ == "차량이 연체되었습니다. 연체료 결제 페이지로 이동합니다."@ && r.overdue_fee == Some(fee as i32)
    } else {
        r.message@ == "차량이 성공적으로 반납 처리되었습니다."@ && r.overdue_fee is None
    }
}

/// Writes the status a returned reservation is left in.
pub fn status_after_return(fee: i32) -> (res: String)
    ensures
        res@ == returned_status(fee as int),
{
    if fee > 0 { String::from_str("overdue") } else { String::from_str("completed") }
}

/// Writes the answer to a return with late fee `fee`.
pub fn return_response(fee: i32) -> (res: ReturnApiResponse)
    ensures
        return_answer(fee as int, res),
{
    if fee > 0 {
        ReturnApiResponse {
            message: String::from_str("차량이 연체되었습니다. 연체료 결제 페이지로 이동합니다."),
            overdue_fee: Some(fee),
        }
    } else {
        ReturnApiResponse { message: String::from_str("차량이 성공적으로 반납 처리되었습니다."), overdue_fee: None }
    }
}

/// How late a return at `now` is for a car due at `due`: `Some` whole hours
/// past the due time where `now` is after it, `None` where it is not late.
pub fn lateness(due: DateTimeValue, now: DateTimeValue) -> (res: Option<i64>)
    ensures
        res is Some <==> earlier(due, now),
        res matches Some(h) ==> h as int == whole_hours(nanos_between(due, now)),
        (match res { Some(h) => h as int, None => 0 }) == hours_late(due, now),
{
    if is_earlier(due, now) {
        Some(hours_between(due, now))
    } else {
        None
    }
}

/// Where the return stands.
#[derive(Clone, Copy, PartialEq, Eq, Structural)]
pub enum ReturnStage {
    Connecting,
    Beginning,
    LookingUp,
    Pricing,
    Recording,
    ReleasingCar,
    Committing,
    Finished,
}

/// What the store reported for the last action; errors carry their text.
pub enum ReturnEvent {
    Connected(Result<(), String>),
    Began(Result<(), String>),
    /// The reservation; `None` where there is no such reservation.
    Found(Result<Option<ReturnRecord>, String>),
    /// The late fee charged for the hours asked about (0 where the car has
    /// no rate).
    Priced(Result<i32, String>),
    Recorded(Result<(), String>),
    /// Whether the car was made available; its outcome does not matter.
    CarReleased(Result<(), String>),
    Committed(Result<(), String>),
}

/// What the store is to do next.
pub enum ReturnAction {
    Connect,
    BeginTransaction,
    LookUpReservation,
    /// Work out the late fee of this car for this many whole hours.
    PriceDelay { car_id: i32, overdue_hours: i64 },
    /// Record the return: the reservation's new status, when it came back,
    /// and the late fee.
    RecordReturn { status: String, returned_at: DateTimeValue, fee: i32 },
    /// Set this car's status to `status`, which marks it available.
    ReleaseCar { car_id: i32, status: String },
    Commit,
    RollbackAndRespond(HttpStatus),
    Respond(Result<ReturnApiResponse, HttpStatus>),
}

/// The state of one return, made on behalf of the user `caller`.
pub struct ReturnCar {
    stage: ReturnStage,
    caller: i32,
    car_id: i32,
    returned_at: DateTimeValue,
    fee: i32,
    owner_checked: bool,
    recorded: bool,
}

impl ReturnCar {
    #[verifier::type_invariant]
    spec fn well_formed(self) -> bool {
        &&& (self.stage == ReturnStage::Pricing || self.stage == ReturnStage::Recording
            || self.stage == ReturnStage::ReleasingCar || self.stage == ReturnStage::Committing)
            ==> self.owner_checked
        &&& (self.stage == ReturnStage::ReleasingCar || self.stage == ReturnStage::Committing)
            ==> self.recorded
    }

    pub closed spec fn stage(self) -> ReturnStage {
        self.stage
    }

    pub closed spec fn caller(self) -> i32 {
        self.caller
    }

    pub closed spec fn car_id(self) -> i32 {
        self.car_id
    }

    /// The moment read from the clock when the reservation was found.
    pub closed spec fn returned_at(self) -> DateTimeValue {
        self.returned_at
    }

    /// The late fee decided on.
    pub closed spec fn fee(self) -> int {
        self.fee as int
    }

    pub closed spec fn owner_checked(self) -> bool {
        self.owner_checked
    }

    /// Whether the return was recorded.
    pub closed spec fn recorded(self) -> bool {
        self.recorded
    }

    pub open spec fn accepts(self, event: ReturnEvent) -> bool {
        match self.stage() {
            ReturnStage::Connecting => event is Connected,
            ReturnStage::Beginning => event is Began,
            ReturnStage::LookingUp => event is Found,
            ReturnStage::Pricing => event is Priced,
            ReturnStage::Recording => event is Recorded,
            ReturnStage::ReleasingCar => event is CarReleased,
            ReturnStage::Committing => event is Committed,
            ReturnStage::Finished => false,
        }
    }

    /// A new return for `caller`, and its first action.
    pub fn start(caller: i32) -> (res: (ReturnCar, ReturnAction))
        ensures
            res.0.stage() == ReturnStage::Connecting,
            res.0.caller() == caller,
            res.1 is Connect,
    {
        (
            ReturnCar {
                stage: ReturnStage::Connecting,
                caller,
                car_id: 0,
                returned_at: DateTimeValue { day: 0, seconds: 0, nanos: 0 },
                fee: 0,
                owner_checked: false,
                recorded: false,
            },
            ReturnAction::Connect,
        )
    }

    pub fn expects(&self, event: &ReturnEvent) -> (res: bool)
        ensures
            res == self.accepts(*event),
    {
        match self.stage {
            ReturnStage::Connecting => matches!(event, ReturnEvent::Connected(_)),
            ReturnStage::Beginning => matches!(event, ReturnEvent::Began(_)),
            ReturnStage::LookingUp => matches!(event, ReturnEvent::Found(_)),
            ReturnStage::Pricing => matches!(event, ReturnEvent::Priced(_)),
            ReturnStage::Recording => matches!(event, ReturnEvent::Recorded(_)),
            ReturnStage::ReleasingCar => matches!(event, ReturnEvent::CarReleased(_)),
            ReturnStage::Committing => matches!(event, ReturnEvent::Committed(_)),
            ReturnStage::Finished => false,
        }
    }

    /// Judges the return, by its owner `caller`, of the reservation `r`, made
    /// at clock reading `now`: a return after the due time is priced by the
    /// whole hours from the due time to `now`; any other is recorded at once
    /// as completed, with no fee. Either way the return is recorded at `now`.
    pub fn judge_at(caller: i32, r: ReturnRecord, now: DateTimeValue) -> (res: (ReturnCar, ReturnAction))
        requires
            r.user_id == caller,
        ensures
            res.0.caller() == caller,
            res.0.car_id() == r.car_id,
            res.0.returned_at() == now,
            res.0.owner_checked(),
            !res.0.recorded(),
            res.0.fee() == 0,
            earlier(r.return_date, now) ==> (res.0.stage() == ReturnStage::Pricing
                && (res.1 matches ReturnAction::PriceDelay { car_id, overdue_hours }
                && car_id == r.car_id && overdue_hours as int == whole_hours(nanos_between(r.return_date, now)))),
            !earlier(r.return_date, now) ==> (res.0.stage() == ReturnStage::Recording
                && (res.1 matches ReturnAction::RecordReturn { status, returned_at, fee }
                && status@ == "completed"@ && returned_at == now && fee == 0)),
    {
        match lateness(r.return_date, now) {
            Some(hours) => (
                ReturnCar {
                    stage: ReturnStage::Pricing,
                    caller,
                    car_id: r.car_id,
                    returned_at: now,
                    fee: 0,
                    owner_checked: true,
                    recorded: false,
                },
                ReturnAction::PriceDelay { car_id: r.car_id, overdue_hours: hours },
            ),
            None => (
                ReturnCar {
                    stage: ReturnStage::Recording,
                    caller,
                    car_id: r.car_id,
                    returned_at: now,
                    fee: 0,
                    owner_checked: true,
                    recorded: false,
                },
                ReturnAction::RecordReturn { status: status_after_return(0), returned_at: now, fee: 0 },
            ),
        }
    }

    /// Takes the store's report on the last action and decides the next one.
    /// A return is recorded only for the reservation's owner; a return after
    /// the due time is priced by the whole hours it is late, and the answer
    /// names the fee exactly where it is positive.
    pub fn step(self, event: ReturnEvent) -> (res: (ReturnCar, ReturnAction))
        requires
            self.accepts(event),
        ensures
            res.0.caller() == self.caller(),
            ({
                let (next, action) = res;
                match event {
                    ReturnEvent::Connected(Err(_)) => next.stage() == ReturnStage::Finished
                        && action matches ReturnAction::Respond(Err(HttpStatus::InternalServerError)),
                    ReturnEvent::Connected(Ok(())) => next.stage() == ReturnStage::Beginning
                        && action is BeginTransaction,
                    ReturnEvent::Began(Err(_)) => next.stage() == ReturnStage::Finished
                        && action matches ReturnAction::Respond(Err(HttpStatus::InternalServerError)),
                    ReturnEvent::Began(Ok(())) => next.stage() == ReturnStage::LookingUp
                        && action is LookUpReservation,
                    ReturnEvent::Found(Err(_)) => next.stage() == ReturnStage::Finished
                        && action matches ReturnAction::RollbackAndRespond(HttpStatus::InternalServerError),
                    ReturnEvent::Found(Ok(None)) => next.stage() == ReturnStage::Finished
                        && action matches ReturnAction::RollbackAndRespond(HttpStatus::NotFound),
                    ReturnEvent::Found(Ok(Some(r))) => if r.user_id != self.caller() {
                        next.stage() == ReturnStage::Finished
                            && action matches ReturnAction::RollbackAndRespond(HttpStatus::Forbidden)
                    } else if earlier(r.return_date, next.returned_at()) {
                        &&& next.stage() == ReturnStage::Pricing
                        &&& next.car_id() == r.car_id
                        &&& action == ReturnAction::PriceDelay {
                            car_id: r.car_id,
                            overdue_hours: whole_hours(nanos_between(r.return_date, next.returned_at())) as i64,
                        }
                    } else {
                        &&& next.stage() == ReturnStage::Recording
                        &&& next.car_id() == r.car_id
                        &&& next.fee() == 0
                        &&& action matches ReturnAction::RecordReturn { status, returned_at, fee }
                        &&& status@ == "completed"@ && returned_at == next.returned_at() && fee == 0
                    },
                    ReturnEvent::Priced(Err(_)) => next.stage() == ReturnStage::Finished
                        && action matches ReturnAction::Respond(Err(HttpStatus::InternalServerError)),
                    ReturnEvent::Priced(Ok(fee)) => {
                        &&& next.stage() == ReturnStage::Recording
                        &&& next.fee() == fee
                        &&& next.car_id() == self.car_id()
                        &&& action matches ReturnAction::RecordReturn { status, returned_at, fee: f }
                        &&& status@ == returned_status(fee as int) && returned_at == self.returned_at() && f == fee
                    },
                    ReturnEvent::Recorded(Err(_)) => next.stage() == ReturnStage::Finished
                        && action matches ReturnAction::Respond(Err(HttpStatus::InternalServerError)),
                    ReturnEvent::Recorded(Ok(())) => next.stage() == ReturnStage::ReleasingCar
                        && next.fee() == self.fee()
                        && (action matches ReturnAction::ReleaseCar { car_id, status }
                            && car_id == self.car_id() && status@ == released_status()),
                    ReturnEvent::CarReleased(_) => next.stage() == ReturnStage::Committing
                        && next.fee() == self.fee() && action is Commit,
                    ReturnEvent::Committed(Err(_)) => next.stage() == ReturnStage::Finished
                        && action matches ReturnAction::Respond(Err(HttpStatus::InternalServerError)),
                    ReturnEvent::Committed(Ok(())) => next.stage() == ReturnStage::Finished
                        && (action matches ReturnAction::Respond(Ok(r)) && return_answer(self.fee(), r)),
                }
            }),
            // A return is only recorded, and only confirmed, for the owner.
            (res.1 is RecordReturn || res.1 is PriceDelay || res.1 is Respond && res.1->Respond_0 is Ok)
                ==> res.0.owner_checked(),
            res.1 matches ReturnAction::Respond(Ok(_)) ==> self.recorded(),
    {
        proof {
            use_type_invariant(&self);
        }
        let caller = self.caller;
        let car_id = self.car_id;
        let returned_at = self.returned_at;
        let fee = self.fee;
        let checked = self.owner_checked;
        let recorded = self.recorded;
        let at = |stage: ReturnStage| -> (r: ReturnCar)
            requires
                (stage == ReturnStage::Pricing || stage == ReturnStage::Recording
                    || stage == ReturnStage::ReleasingCar || stage == ReturnStage::Committing) ==> checked,
                (stage == ReturnStage::ReleasingCar || stage == ReturnStage::Committing) ==> recorded,
            ensures
                r.stage == stage && r.caller == caller && r.car_id == car_id && r.returned_at == returned_at
                    && r.fee == fee && r.owner_checked == checked && r.recorded == recorded,
        {
            ReturnCar { stage, caller, car_id, returned_at, fee, owner_checked: checked, recorded }
        };
        match event {
            ReturnEvent::Connected(Err(_)) => (at(ReturnStage::Finished), ReturnAction::Respond(Err(HttpStatus::InternalServerError))),
            ReturnEvent::Connected(Ok(())) => (at(ReturnStage::Beginning), ReturnAction::BeginTransaction),
            ReturnEvent::Began(Err(_)) => (at(ReturnStage::Finished), ReturnAction::Respond(Err(HttpStatus::InternalServerError))),
            ReturnEvent::Began(Ok(())) => (at(ReturnStage::LookingUp), ReturnAction::LookUpReservation),
            ReturnEvent::Found(Err(_)) => (at(ReturnStage::Finished), ReturnAction::RollbackAndRespond(HttpStatus::InternalServerError)),
            ReturnEvent::Found(Ok(None)) => (at(ReturnStage::Finished), ReturnAction::RollbackAndRespond(HttpStatus::NotFound)),
            ReturnEvent::Found(Ok(Some(r))) => {
                if r.user_id != caller {
                    (at(ReturnStage::Finished), ReturnAction::RollbackAndRespond(HttpStatus::Forbidden))
                } else {
                    let now = utc_now();
                    Self::judge_at(caller, r, now)
                }
            },
            ReturnEvent::Priced(Err(_)) => (at(ReturnStage::Finished), ReturnAction::Respond(Err(HttpStatus::InternalServerError))),
            ReturnEvent::Priced(Ok(charged)) => (
                ReturnCar {
                    stage: ReturnStage::Recording,
                    caller,
                    car_id,
                    returned_at,
                    fee: charged,
                    owner_checked: checked,
                    recorded,
                },
                ReturnAction::RecordReturn { status: status_after_return(charged), returned_at, fee: charged },
            ),
            ReturnEvent::Recorded(Err(_)) => (at(ReturnStage::Finished), ReturnAction::Respond(Err(HttpStatus::InternalServerError))),
            ReturnEvent::Recorded(Ok(())) => {
                proof {
                    reveal_strlit("Available");
                }
                (
                    ReturnCar {
                        stage: ReturnStage::ReleasingCar,
                        caller,
                        car_id,
                        returned_at,
                        fee,
                        owner_checked: checked,
                        recorded: true,
                    },
                    ReturnAction::ReleaseCar { car_id, status: String::from_str("Available") },
                )
            },
            ReturnEvent::CarReleased(_) => (at(ReturnStage::Committing), ReturnAction::Commit),
            ReturnEvent::Committed(Err(_)) => (at(ReturnStage::Finished), ReturnAction::Respond(Err(HttpStatus::InternalServerError))),
            ReturnEvent::Committed(Ok(())) => (at(ReturnStage::Finished), ReturnAction::Respond(Ok(return_response(fee)))),
        }
    }
}

/// The whole hours by which a return at `now` is late for a car due at
/// `due`, and 0 where it is not late, as `lateness` reports them.
pub open spec fn hours_late(due: DateTimeValue, now: DateTimeValue) -> int {
    if earlier(due, now) { whole_hours(nanos_between(due, now)) } else { 0 }
}

/// A point in time as chrono holds one: fewer than 86_400 seconds since
/// midnight, a fraction below 2_000_000_000 nanoseconds (above 999_999_999
/// only during a leap second).
pub open spec fn valid_time(t: DateTimeValue) -> bool {
    t.seconds < 86_400 && t.nanos < 2_000_000_000
}

/// Whole hours, rounded toward zero, never fall as the span grows.
proof fn lemma_whole_hours_grow(a: int, b: int)
    requires
        a <= b,
    ensures
        whole_hours(a) <= whole_hours(b),
{
    let h = 3_600_000_000_000int;
    if a >= 0 {
        vstd::arithmetic::div_mod::lemma_div_is_ordered(a, b, h);
    } else if b >= 0 {
        vstd::arithmetic::div_mod::lemma_div_pos_is_pos(-a, h);
        vstd::arithmetic::div_mod::lemma_div_pos_is_pos(b, h);
    } else {
        vstd::arithmetic::div_mod::lemma_div_is_ordered(-b, -a, h);
    }
}

/// A later return is never less late: for the same due time, the whole hours
/// late at a clock reading never exceed those at any later reading. (The
/// earlier reading must not fall in a leap second, during which chrono counts
/// the fraction past 999_999_999 and the spans between readings can shrink.)
pub proof fn law_later_return_not_less_late(due: DateTimeValue, now1: DateTimeValue, now2: DateTimeValue)
    requires
        valid_time(due),
        valid_time(now1),
        valid_time(now2),
        now1.nanos < 1_000_000_000,
        !earlier(now2, now1),
    ensures
        hours_late(due, now1) <= hours_late(due, now2),
{
    assert(nanos_between(due, now2) - nanos_between(due, now1) == nanos_between(now1, now2));
    assert(nanos_between(now1, now2) >= 0) by (nonlinear_arith)
        requires
            now1.seconds < 86_400,
            now2.seconds < 86_400,
            now1.nanos < 1_000_000_000,
            !(now2.day < now1.day || (now2.day == now1.day && (now2.seconds < now1.seconds
                || (now2.seconds == now1.seconds && now2.nanos < now1.nanos)))),
            nanos_between(now1, now2) == (now2.day - now1.day) * 86_400_000_000_000
                + (now2.seconds - now1.seconds) * 1_000_000_000 + (now2.nanos - now1.nanos),
    ;
    if earlier(due, now1) {
        assert(earlier(due, now2));
        lemma_whole_hours_grow(nanos_between(due, now1), nanos_between(due, now2));
    } else if earlier(due, now2) {
        assert(nanos_between(due, now2) > -3_600_000_000_000) by (nonlinear_arith)
            requires
                due.seconds < 86_400,
                now2.seconds < 86_400,
                due.nanos < 2_000_000_000,
                due.day < now2.day || (due.day == now2.day && (due.seconds < now2.seconds
                    || (due.seconds == now2.seconds && due.nanos < now2.nanos))),
                nanos_between(due, now2) == (now2.day - due.day) * 86_400_000_000_000
                    + (now2.seconds - due.seconds) * 1_000_000_000 + (now2.nanos - due.nanos),
        ;
        lemma_whole_hours_grow(-3_599_999_999_999, nanos_between(due, now2));
        assert(whole_hours(-3_599_999_999_999) == 0);
    }
}

} // verus!
