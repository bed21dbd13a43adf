//! The workflow that books a car: inside one transaction the car's status is
//! read and locked, the reservation and its log entry are written, and the
//! car is marked unavailable.

use vstd::prelude::*;
use rand::rngs::StdRng;
use crate::http::{HttpStatus, RequestFailure, failure};
use crate::ids::{generate_reservation_id, reservation_id_of};
use crate::text::{to_lowercase, lowercase_of, is_ascii_text, ascii_lowered};

verus! {

/// Where the booking workflow stands.
#[derive(Clone, Copy, PartialEq, Eq, Structural)]
pub enum CreateStage {
    Connecting,
    Beginning,
    CheckingCar,
    Inserting,
    MarkingCar,
    Committing,
    Finished,
}

/// What the store reported for the last action; errors carry their text.
pub enum CreateEvent {
    /// A connection was (or was not) acquired.
    Connected(Result<(), String>),
    /// The transaction was (or was not) begun.
    Began(Result<(), String>),
    /// The car's status, read and locked; `None` where there is no such car.
    CarStatusRead(Result<Option<String>, String>),
    /// The outcomes of writing the reservation and of writing its log entry.
    Inserted(Result<(), String>, Result<(), String>),
    /// The number of car rows marked unavailable.
    CarMarked(Result<u64, String>),
    /// The commit's outcome.
    Committed(Result<(), String>),
}

/// What the store is to do next.
pub enum CreateAction {
    /// Acquire a connection.
    Connect,
    /// Begin a transaction.
    BeginTransaction,
    /// Read the car's status, locking its row.
    ReadCarStatus,
    /// Write the reservation and its log entry under this identifier, with
    /// this status (both writes are made, then both outcomes reported).
    InsertReservation { reservation_id: String, status: String },
    /// Set the car's status to `status`, which marks it unavailable.
    MarkCarUnavailable { status: String },
    /// Commit the transaction.
    Commit,
    /// Roll the transaction back (ignoring the rollback's own outcome), then
    /// answer with this failure.
    RollbackAndRespond(RequestFailure),
    /// Answer: the new reservation's identifier, or a failure.
    Respond(Result<String, RequestFailure>),
}

/// Whether a car's status admits a booking: it reads `available` in lower case.
pub open spec fn status_is_available(status: Seq<char>) -> bool {
    lowercase_of(status) == "available"@
}

/// The status a booking leaves on its car.
pub open spec fn booked_status() -> Seq<char> {
    "Unavailable"@
}

/// The action rolls back and answers with this status and message.
pub open spec fn rolls_back_with(action: CreateAction, status: HttpStatus, message: Seq<char>) -> bool {
    action matches CreateAction::RollbackAndRespond(f) && f.status == status && f.message@ == message
}

/// The action answers, without a rollback, with this status and message.
pub open spec fn responds_failure(action: CreateAction, status: HttpStatus, message: Seq<char>) -> bool {
    action matches CreateAction::Respond(Err(f)) && f.status == status && f.message@ == message
}

/// The state of one booking.
pub struct CreateReservation {
    stage: CreateStage,
    reservation_id: String,
    car_status: Option<String>,
    writes_done: bool,
    cars_marked: u64,
}

impl CreateReservation {
    #[verifier::type_invariant]
    spec fn well_formed(self) -> bool {
        &&& (self.stage == CreateStage::Inserting || self.stage == CreateStage::MarkingCar
            || self.stage == CreateStage::Committing) ==> {
            &&& self.car_status matches Some(s) && status_is_available(s@)
            &&& exists|t: i64, r: u32| self.reservation_id@ == reservation_id_of(t as int, r as nat)
        }
        &&& (self.stage == CreateStage::MarkingCar || self.stage == CreateStage::Committing)
            ==> self.writes_done
        &&& self.stage == CreateStage::Committing ==> self.cars_marked > 0
    }

    /// The stage reached.
    pub closed spec fn stage(self) -> CreateStage {
        self.stage
    }

    /// The identifier chosen for the reservation (meaningful once inserting).
    pub closed spec fn reservation_id(self) -> Seq<char> {
        self.reservation_id@
    }

    /// The car status that was read, if any.
    pub closed spec fn car_status(self) -> Option<Seq<char>> {
        match self.car_status {
            Some(s) => Some(s@),
            None => None,
        }
    }

    /// Whether both the reservation and its log entry were written.
    pub closed spec fn writes_done(self) -> bool {
        self.writes_done
    }

    /// How many car rows were marked unavailable.
    pub closed spec fn cars_marked(self) -> nat {
        self.cars_marked as nat
    }

    /// Whether `event` answers the action that the stage waits on.
    pub open spec fn accepts(self, event: CreateEvent) -> bool {
        match self.stage() {
            CreateStage::Connecting => event is Connected,
            CreateStage::Beginning => event is Began,
            CreateStage::CheckingCar => event is CarStatusRead,
            CreateStage::Inserting => event is Inserted,
            CreateStage::MarkingCar => event is CarMarked,
            CreateStage::Committing => event is Committed,
            CreateStage::Finished => false,
        }
    }

    /// A new booking, and its first action: acquire a connection.
    pub fn start() -> (res: (CreateReservation, CreateAction))
        ensures
            res.0.stage() == CreateStage::Connecting,
            res.0.car_status() is None,
            !res.0.writes_done(),
            res.0.cars_marked() == 0,
            res.1 is Connect,
    {
        (
            CreateReservation {
                stage: CreateStage::Connecting,
                reservation_id: String::new(),
                car_status: None,
                writes_done: false,
                cars_marked: 0,
            },
            CreateAction::Connect,
        )
    }

    /// Whether `event` answers the action that the stage waits on.
    pub fn expects(&self, event: &CreateEvent) -> (res: bool)
        ensures
            res == self.accepts(*event),
    {
        match self.stage {
            CreateStage::Connecting => matches!(event, CreateEvent::Connected(_)),
            CreateStage::Beginning => matches!(event, CreateEvent::Began(_)),
            CreateStage::CheckingCar => matches!(event, CreateEvent::CarStatusRead(_)),
            CreateStage::Inserting => matches!(event, CreateEvent::Inserted(_, _)),
            CreateStage::MarkingCar => matches!(event, CreateEvent::CarMarked(_)),
            CreateStage::Committing => matches!(event, CreateEvent::Committed(_)),
            CreateStage::Finished => false,
        }
    }

    /// Takes the store's report on the last action and decides the next one.
    /// A booking succeeds only after the car's status read `available`, both
    /// writes succeeded, at least one car row was marked and the commit
    /// succeeded; a failure after the transaction began rolls it back.
    pub fn step(self, event: CreateEvent, rng: &mut StdRng) -> (res: (CreateReservation, CreateAction))
        requires
            self.accepts(event),
        ensures
            ({
                let (next, action) = res;
                match event {
                    CreateEvent::Connected(Err(e)) => next.stage() == CreateStage::Finished
                        && responds_failure(action, HttpStatus::InternalServerError, "DB 연결 실패: "@ + e@),
                    CreateEvent::Connected(Ok(())) => next.stage() == CreateStage::Beginning
                        && action is BeginTransaction,
                    CreateEvent::Began(Err(e)) => next.stage() == CreateStage::Finished
                        && responds_failure(action, HttpStatus::InternalServerError, "트랜잭션 시작 실패: "@ + e@),
                    CreateEvent::Began(Ok(())) => next.stage() == CreateStage::CheckingCar
                        && action is ReadCarStatus,
                    CreateEvent::CarStatusRead(Err(e)) => next.stage() == CreateStage::Finished
                        && rolls_back_with(action, HttpStatus::InternalServerError, "차량 상태 조회 실패: "@ + e@),
                    CreateEvent::CarStatusRead(Ok(None)) => next.stage() == CreateStage::Finished
                        && rolls_back_with(action, HttpStatus::NotFound, "차량 없음"@),
                    CreateEvent::CarStatusRead(Ok(Some(st))) => if status_is_available(st@) {
                        &&& next.stage() == CreateStage::Inserting
                        &&& next.car_status() == Some(st@)
                        &&& action matches CreateAction::InsertReservation { reservation_id: id, status }
                        &&& status@ == "pending"@
                        &&& id@ == next.reservation_id()
                        &&& exists|t: i64, r: u32| id@ == reservation_id_of(t as int, r as nat)
                    } else {
                        next.stage() == CreateStage::Finished
                            && rolls_back_with(action, HttpStatus::BadRequest, "차량 사용 불가"@)
                    },
                    CreateEvent::Inserted(Err(e), _) => next.stage() == CreateStage::Finished
                        && rolls_back_with(action, HttpStatus::InternalServerError, "예약 실패: "@ + e@),
                    CreateEvent::Inserted(Ok(()), Err(e)) => next.stage() == CreateStage::Finished
                        && rolls_back_with(action, HttpStatus::InternalServerError, "로그 저장 실패: "@ + e@),
                    CreateEvent::Inserted(Ok(()), Ok(())) => next.stage() == CreateStage::MarkingCar
                        && next.writes_done() && next.reservation_id() == self.reservation_id()
                        && (action matches CreateAction::MarkCarUnavailable { status }
                            && status@ == booked_status()),
                    CreateEvent::CarMarked(Err(e)) => next.stage() == CreateStage::Finished
                        && rolls_back_with(action, HttpStatus::InternalServerError, "차 상태 업데이트 실패: "@ + e@),
                    CreateEvent::CarMarked(Ok(n)) => if n > 0 {
                        next.stage() == CreateStage::Committing && next.cars_marked() == n
                            && next.reservation_id() == self.reservation_id() && action is Commit
                    } else {
                        next.stage() == CreateStage::Finished
                            && rolls_back_with(action, HttpStatus::InternalServerError, "차량 상태 업데이트 실패"@)
                    },
                    CreateEvent::Committed(Err(e)) => next.stage() == CreateStage::Finished
                        && responds_failure(action, HttpStatus::InternalServerError, "커밋 실패: "@ + e@),
                    CreateEvent::Committed(Ok(())) => next.stage() == CreateStage::Finished
                        && (action matches CreateAction::Respond(Ok(id)) && id@ == self.reservation_id()),
                }
            }),
            // An ASCII status admits a booking exactly where it lowers to
            // `available`.
            event matches CreateEvent::CarStatusRead(Ok(Some(st))) ==> (is_ascii_text(st@)
                ==> (status_is_available(st@) <==> ascii_lowered(st@) == "available"@)),
            // A booking is only confirmed once every check and write succeeded.
            res.1 matches CreateAction::Respond(Ok(id)) ==> {
                &&& self.stage() == CreateStage::Committing
                &&& event matches CreateEvent::Committed(Ok(()))
                &&& self.car_status() matches Some(st) && status_is_available(st)
                &&& self.writes_done()
                &&& self.cars_marked() > 0
                &&& exists|t: i64, r: u32| id@ == reservation_id_of(t as int, r as nat)
            },
            // Every failure after the transaction began rolls it back, except
            // a failed commit.
            res.1 matches CreateAction::Respond(Err(_)) ==> (self.stage() == CreateStage::Connecting
                || self.stage() == CreateStage::Beginning || self.stage() == CreateStage::Committing),
    {
        proof {
            use_type_invariant(&self);
        }
        let finished = |id: String| -> (r: CreateReservation)
            ensures r.stage == CreateStage::Finished
        {
            CreateReservation {
                stage: CreateStage::Finished,
                reservation_id: id,
                car_status: None,
                writes_done: false,
                cars_marked: 0,
            }
        };
        match event {
            CreateEvent::Connected(Err(e)) => (
                finished(self.reservation_id),
                CreateAction::Respond(Err(failure(HttpStatus::InternalServerError, "DB 연결 실패: ", e.as_str()))),
            ),
            CreateEvent::Connected(Ok(())) => (
                CreateReservation { stage: CreateStage::Beginning, ..self },
                CreateAction::BeginTransaction,
            ),
            CreateEvent::Began(Err(e)) => (
                finished(self.reservation_id),
                CreateAction::Respond(Err(failure(HttpStatus::InternalServerError, "트랜잭션 시작 실패: ", e.as_str()))),
            ),
            CreateEvent::Began(Ok(())) => (
                CreateReservation { stage: CreateStage::CheckingCar, ..self },
                CreateAction::ReadCarStatus,
            ),
            CreateEvent::CarStatusRead(Err(e)) => (
                finished(self.reservation_id),
                CreateAction::RollbackAndRespond(failure(HttpStatus::InternalServerError, "차량 상태 조회 실패: ", e.as_str())),
            ),
            CreateEvent::CarStatusRead(Ok(None)) => (
                finished(self.reservation_id),
                CreateAction::RollbackAndRespond(RequestFailure {
                    status: HttpStatus::NotFound,
                    message: String::from_str("차량 없음"),
                }),
            ),
            CreateEvent::CarStatusRead(Ok(Some(status))) => {
                let lowered = to_lowercase(status.as_str());
                if lowered == String::from_str("available") {
                    let id = generate_reservation_id(rng);
                    let sent = id.clone();
                    proof {
                        reveal_strlit("pending");
                    }
                    (
                        CreateReservation {
                            stage: CreateStage::Inserting,
                            reservation_id: id,
                            car_status: Some(status),
                            writes_done: false,
                            cars_marked: 0,
                        },
                        CreateAction::InsertReservation { reservation_id: sent, status: String::from_str("pending") },
                    )
                } else {
                    (
                        finished(self.reservation_id),
                        CreateAction::RollbackAndRespond(RequestFailure {
                            status: HttpStatus::BadRequest,
                            message: String::from_str("차량 사용 불가"),
                        }),
                    )
                }
            },
            CreateEvent::Inserted(Err(e), _) => (
                finished(self.reservation_id),
                CreateAction::RollbackAndRespond(failure(HttpStatus::InternalServerError, "예약 실패: ", e.as_str())),
            ),
            CreateEvent::Inserted(Ok(()), Err(e)) => (
                finished(self.reservation_id),
                CreateAction::RollbackAndRespond(failure(HttpStatus::InternalServerError, "로그 저장 실패: ", e.as_str())),
            ),
            CreateEvent::Inserted(Ok(()), Ok(())) => {
                proof {
                    reveal_strlit("Unavailable");
                }
                (
                    CreateReservation { stage: CreateStage::MarkingCar, writes_done: true, ..self },
                    CreateAction::MarkCarUnavailable { status: String::from_str("Unavailable") },
                )
            },
            CreateEvent::CarMarked(Err(e)) => (
                finished(self.reservation_id),
                CreateAction::RollbackAndRespond(failure(HttpStatus::InternalServerError, "차 상태 업데이트 실패: ", e.as_str())),
            ),
            CreateEvent::CarMarked(Ok(n)) => {
                if n > 0 {
                    (
                        CreateReservation { stage: CreateStage::Committing, cars_marked: n, ..self },
                        CreateAction::Commit,
                    )
                } else {
                    (
                        finished(self.reservation_id),
                        CreateAction::RollbackAndRespond(RequestFailure {
                            status: HttpStatus::InternalServerError,
                            message: String::from_str("차량 상태 업데이트 실패"),
                        }),
                    )
                }
            },
            CreateEvent::Committed(Err(e)) => (
                finished(self.reservation_id),
                CreateAction::Respond(Err(failure(HttpStatus::InternalServerError, "커밋 실패: ", e.as_str()))),
            ),
            CreateEvent::Committed(Ok(())) => {
                let id = self.reservation_id.clone();
                (finished(self.reservation_id), CreateAction::Respond(Ok(id)))
            },
        }
    }
}

/// A booked car cannot be booked again: the status a booking leaves on its
/// car is ASCII and does not lower to `available`, so a later booking that
/// reads it is refused with `차량 사용 불가`.
pub proof fn law_booked_car_not_available()
    ensures
        is_ascii_text(booked_status()),
        ascii_lowered(booked_status()) != "available"@,
{
    reveal_strlit("Unavailable");
    reveal_strlit("available");
    assert(ascii_lowered(booked_status()).len() != "available"@.len());
}

} // verus!
