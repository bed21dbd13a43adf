//! The workflow that cancels a reservation at its owner's request: inside
//! one transaction the reservation is looked up, the caller's ownership is
//! checked, the log entry is marked canceled, the reservation is deleted and
//! the car is made available again.

use vstd::prelude::*;
use crate::http::HttpStatus;
use crate::cancel_unpaid::{ReservationOwner, released_status};

verus! {

/// The status a cancellation leaves on the reservation's log entries.
pub open spec fn canceled_status() -> Seq<char> {
    "canceled"@
}

/// The answer to a cancellation.
pub struct CancelApiResponse {
    pub message: String,
}

/// Where the cancellation stands.
#[derive(Clone, Copy, PartialEq, Eq, Structural)]
pub enum CancelStage {
    Connecting,
    Beginning,
    LookingUp,
    MarkingLog,
    DeletingReservation,
    ReleasingCar,
    Committing,
    Finished,
}

/// What the store reported for the last action; errors carry their text.
pub enum CancelEvent {
    Connected(Result<(), String>),
    Began(Result<(), String>),
    Found(Result<Option<ReservationOwner>, String>),
    LogMarked(Result<(), String>),
    ReservationDeleted(Result<(), String>),
    /// Whether the car was made available; its outcome does not matter.
    CarReleased(Result<(), String>),
    Committed(Result<(), String>),
}

/// What the store is to do next.
pub enum CancelAction {
    Connect,
    BeginTransaction,
    LookUpReservation,
    /// Set the status of the reservation's log entries to `status`, which
    /// marks them canceled.
    MarkLogCanceled { status: String },
    DeleteReservation,
    /// Set this car's status to `status`, which marks it available.
    ReleaseCar { car_id: i32, status: String },
    Commit,
    RollbackAndRespond(HttpStatus),
    Respond(Result<CancelApiResponse, HttpStatus>),
}

/// The state of one cancellation, made on behalf of the user `caller`.
pub struct CancelReservation {
    stage: CancelStage,
    caller: i32,
    car_id: i32,
    owner_checked: bool,
    deleted: bool,
}

impl CancelReservation {
    #[verifier::type_invariant]
    spec fn well_formed(self) -> bool {
        &&& (self.stage == CancelStage::MarkingLog || self.stage == CancelStage::DeletingReservation
            || self.stage == CancelStage::ReleasingCar || self.stage == CancelStage::Committing)
            ==> self.owner_checked
        &&& (self.stage == CancelStage::ReleasingCar || self.stage == CancelStage::Committing)
            ==> self.deleted
    }

    pub closed spec fn stage(self) -> CancelStage {
        self.stage
    }

    pub closed spec fn caller(self) -> i32 {
        self.caller
    }

    pub closed spec fn car_id(self) -> i32 {
        self.car_id
    }

    pub closed spec fn owner_checked(self) -> bool {
        self.owner_checked
    }

    /// Whether the reservation was deleted.
    pub closed spec fn deleted(self) -> bool {
        self.deleted
    }

    pub open spec fn accepts(self, event: CancelEvent) -> bool {
        match self.stage() {
            CancelStage::Connecting => event is Connected,
            CancelStage::Beginning => event is Began,
            CancelStage::LookingUp => event is Found,
            CancelStage::MarkingLog => event is LogMarked,
            CancelStage::DeletingReservation => event is ReservationDeleted,
            CancelStage::ReleasingCar => event is CarReleased,
            CancelStage::Committing => event is Committed,
            CancelStage::Finished => false,
        }
    }

    /// A new cancellation for `caller`, and its first action.
    pub fn start(caller: i32) -> (res: (CancelReservation, CancelAction))
        ensures
            res.0.stage() == CancelStage::Connecting,
            res.0.caller() == caller,
            res.1 is Connect,
    {
        (
            CancelReservation { stage: CancelStage::Connecting, caller, car_id: 0, owner_checked: false, deleted: false },
            CancelAction::Connect,
        )
    }

    pub fn expects(&self, event: &CancelEvent) -> (res: bool)
        ensures
            res == self.accepts(*event),
    {
        match self.stage {
            CancelStage::Connecting => matches!(event, CancelEvent::Connected(_)),
            CancelStage::Beginning => matches!(event, CancelEvent::Began(_)),
            CancelStage::LookingUp => matches!(event, CancelEvent::Found(_)),
            CancelStage::MarkingLog => matches!(event, CancelEvent::LogMarked(_)),
            CancelStage::DeletingReservation => matches!(event, CancelEvent::ReservationDeleted(_)),
            CancelStage::ReleasingCar => matches!(event, CancelEvent::CarReleased(_)),
            CancelStage::Committing => matches!(event, CancelEvent::Committed(_)),
            CancelStage::Finished => false,
        }
    }

    /// Takes the store's report on the last action and decides the next one.
    /// Nothing is written unless the reservation belongs to the caller.
    pub fn step(self, event: CancelEvent) -> (res: (CancelReservation, CancelAction))
        requires
            self.accepts(event),
        ensures
            res.0.caller() == self.caller(),
            ({
                let (next, action) = res;
                match event {
                    CancelEvent::Connected(Err(_)) => next.stage() == CancelStage::Finished
                        && action matches CancelAction::Respond(Err(HttpStatus::InternalServerError)),
                    CancelEvent::Connected(Ok(())) => next.stage() == CancelStage::Beginning
                        && action is BeginTransaction,
                    CancelEvent::Began(Err(_)) => next.stage() == CancelStage::Finished
                        && action matches CancelAction::Respond(Err(HttpStatus::InternalServerError)),
                    CancelEvent::Began(Ok(())) => next.stage() == CancelStage::LookingUp
                        && action is LookUpReservation,
                    CancelEvent::Found(Err(_)) => next.stage() == CancelStage::Finished
                        && action matches CancelAction::RollbackAndRespond(HttpStatus::InternalServerError),
                    CancelEvent::Found(Ok(None)) => next.stage() == CancelStage::Finished
                        && action matches CancelAction::RollbackAndRespond(HttpStatus::NotFound),
                    CancelEvent::Found(Ok(Some(o))) => if o.user_id != self.caller() {
                        next.stage() == CancelStage::Finished
                            && action matches CancelAction::RollbackAndRespond(HttpStatus::Forbidden)
                    } else {
                        next.stage() == CancelStage::MarkingLog && next.car_id() == o.car_id
                            && (action matches CancelAction::MarkLogCanceled { status }
                                && status@ == canceled_status())
                    },
                    CancelEvent::LogMarked(Err(_)) => next.stage() == CancelStage::Finished
                        && action matches CancelAction::Respond(Err(HttpStatus::InternalServerError)),
                    CancelEvent::LogMarked(Ok(())) => next.stage() == CancelStage::DeletingReservation
                        && next.car_id() == self.car_id() && action is DeleteReservation,
                    CancelEvent::ReservationDeleted(Err(_)) => next.stage() == CancelStage::Finished
                        && action matches CancelAction::Respond(Err(HttpStatus::InternalServerError)),
                    CancelEvent::ReservationDeleted(Ok(())) => next.stage() == CancelStage::ReleasingCar
                        && (action matches CancelAction::ReleaseCar { car_id: c, status }
                            && c == self.car_id() && status@ == released_status()),
                    CancelEvent::CarReleased(_) => next.stage() == CancelStage::Committing
                        && action is Commit,
                    CancelEvent::Committed(Err(_)) => next.stage() == CancelStage::Finished
                        && action matches CancelAction::Respond(Err(HttpStatus::InternalServerError)),
                    CancelEvent::Committed(Ok(())) => next.stage() == CancelStage::Finished
                        && (action matches CancelAction::Respond(Ok(r))
                            && r.message@ == "예약이 성공적으로 취소되었습니다."@),
                }
            }),
            // Only the caller's own reservation is ever canceled.
            (res.1 is MarkLogCanceled || res.1 is DeleteReservation || res.1 is ReleaseCar
                || res.1 is Respond && res.1->Respond_0 is Ok) ==> res.0.owner_checked(),
            res.1 matches CancelAction::Respond(Ok(_)) ==> self.deleted(),
    {
        proof {
            use_type_invariant(&self);
        }
        let caller = self.caller;
        let car_id = self.car_id;
        let checked = self.owner_checked;
        let deleted = self.deleted;
        let at = |stage: CancelStage| -> (r: CancelReservation)
            requires
                (stage == CancelStage::MarkingLog || stage == CancelStage::DeletingReservation
                    || stage == CancelStage::ReleasingCar || stage == CancelStage::Committing) ==> checked,
                (stage == CancelStage::ReleasingCar || stage == CancelStage::Committing) ==> deleted,
            ensures
                r.stage == stage && r.caller == caller && r.car_id == car_id && r.owner_checked == checked
                    && r.deleted == deleted,
        {
            CancelReservation { stage, caller, car_id, owner_checked: checked, deleted }
        };
        match event {
            CancelEvent::Connected(Err(_)) => (at(CancelStage::Finished), CancelAction::Respond(Err(HttpStatus::InternalServerError))),
            CancelEvent::Connected(Ok(())) => (at(CancelStage::Beginning), CancelAction::BeginTransaction),
            CancelEvent::Began(Err(_)) => (at(CancelStage::Finished), CancelAction::Respond(Err(HttpStatus::InternalServerError))),
            CancelEvent::Began(Ok(())) => (at(CancelStage::LookingUp), CancelAction::LookUpReservation),
            CancelEvent::Found(Err(_)) => (at(CancelStage::Finished), CancelAction::RollbackAndRespond(HttpStatus::InternalServerError)),
            CancelEvent::Found(Ok(None)) => (at(CancelStage::Finished), CancelAction::RollbackAndRespond(HttpStatus::NotFound)),
            CancelEvent::Found(Ok(Some(o))) => {
                if o.user_id != caller {
                    (at(CancelStage::Finished), CancelAction::RollbackAndRespond(HttpStatus::Forbidden))
                } else {
                    proof {
                        reveal_strlit("canceled");
                    }
                    (
                        CancelReservation { stage: CancelStage::MarkingLog, caller, car_id: o.car_id, owner_checked: true, deleted },
                        CancelAction::MarkLogCanceled { status: String::from_str("canceled") },
                    )
                }
            },
            CancelEvent::LogMarked(Err(_)) => (at(CancelStage::Finished), CancelAction::Respond(Err(HttpStatus::InternalServerError))),
            CancelEvent::LogMarked(Ok(())) => (at(CancelStage::DeletingReservation), CancelAction::DeleteReservation),
            CancelEvent::ReservationDeleted(Err(_)) => (at(CancelStage::Finished), CancelAction::Respond(Err(HttpStatus::InternalServerError))),
            CancelEvent::ReservationDeleted(Ok(())) => {
                proof {
                    reveal_strlit("Available");
                }
                (
                    CancelReservation { stage: CancelStage::ReleasingCar, caller, car_id, owner_checked: checked, deleted: true },
                    CancelAction::ReleaseCar { car_id, status: String::from_str("Available") },
                )
            },
            CancelEvent::CarReleased(_) => (at(CancelStage::Committing), CancelAction::Commit),
            CancelEvent::Committed(Err(_)) => (at(CancelStage::Finished), CancelAction::Respond(Err(HttpStatus::InternalServerError))),
            CancelEvent::Committed(Ok(())) => (
                at(CancelStage::Finished),
                CancelAction::Respond(Ok(CancelApiResponse { message: String::from_str("예약이 성공적으로 취소되었습니다.") })),
            ),
        }
    }
}

} // verus!
