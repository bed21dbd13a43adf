//! The workflow that withdraws a reservation whose payment failed: inside
//! one transaction the reservation is looked up, the caller's ownership is
//! checked, the reservation and its log entry are deleted and the car is
//! made available again.

use vstd::prelude::*;
use crate::http::HttpStatus;
use crate::create_reservation::{booked_status, CreateAction};

verus! {

/// The status a withdrawal leaves on the car: available again.
pub open spec fn released_status() -> Seq<char> {
    "Available"@
}

/// Who made a reservation, and for which car.
#[derive(Clone, Copy, Debug, PartialEq, Eq, Structural)]
pub struct ReservationOwner {
    pub user_id: i32,
    pub car_id: i32,
}

/// Where the withdrawal stands.
#[derive(Clone, Copy, PartialEq, Eq, Structural)]
pub enum UnpaidStage {
    Connecting,
    Beginning,
    LookingUp,
    DeletingReservation,
    DeletingLog,
    ReleasingCar,
    Committing,
    Finished,
}

/// What the store reported for the last action; errors carry their text.
pub enum UnpaidEvent {
    Connected(Result<(), String>),
    Began(Result<(), String>),
    /// The reservation's owner and car; `None` where there is no such reservation.
    Found(Result<Option<ReservationOwner>, String>),
    ReservationDeleted(Result<(), String>),
    LogDeleted(Result<(), String>),
    CarReleased(Result<(), String>),
    Committed(Result<(), String>),
}

/// What the store is to do next.
pub enum UnpaidAction {
    Connect,
    BeginTransaction,
    /// Read the reservation's owner and car.
    LookUpReservation,
    /// Delete the reservation.
    DeleteReservation,
    /// Delete the reservation's log entries.
    DeleteLog,
    /// Set this car's status to `status`, which marks it available.
    ReleaseCar { car_id: i32, status: String },
    Commit,
    /// Roll back (ignoring the rollback's own outcome), then answer with this status.
    RollbackAndRespond(HttpStatus),
    /// Answer: `Ok(Success)`, or the failure status.
    Respond(Result<HttpStatus, HttpStatus>),
}

/// The state of one withdrawal, made on behalf of the user `caller`.
pub struct CancelUnpaid {
    stage: UnpaidStage,
    caller: i32,
    car_id: i32,
    owner_checked: bool,
}

impl CancelUnpaid {
    #[verifier::type_invariant]
    spec fn well_formed(self) -> bool {
        (self.stage == UnpaidStage::DeletingReservation || self.stage == UnpaidStage::DeletingLog
            || self.stage == UnpaidStage::ReleasingCar || self.stage == UnpaidStage::Committing)
            ==> self.owner_checked
    }

    pub closed spec fn stage(self) -> UnpaidStage {
        self.stage
    }

    /// The user on whose behalf the withdrawal is made.
    pub closed spec fn caller(self) -> i32 {
        self.caller
    }

    /// The reservation's car, once found.
    pub closed spec fn car_id(self) -> i32 {
        self.car_id
    }

    /// Whether the reservation was found to belong to the caller.
    pub closed spec fn owner_checked(self) -> bool {
        self.owner_checked
    }

    /// Whether `event` answers the action that the stage waits on.
    pub open spec fn accepts(self, event: UnpaidEvent) -> bool {
        match self.stage() {
            UnpaidStage::Connecting => event is Connected,
            UnpaidStage::Beginning => event is Began,
            UnpaidStage::LookingUp => event is Found,
            UnpaidStage::DeletingReservation => event is ReservationDeleted,
            UnpaidStage::DeletingLog => event is LogDeleted,
            UnpaidStage::ReleasingCar => event is CarReleased,
            UnpaidStage::Committing => event is Committed,
            UnpaidStage::Finished => false,
        }
    }

    /// A new withdrawal for `caller`, and its first action.
    pub fn start(caller: i32) -> (res: (CancelUnpaid, UnpaidAction))
        ensures
            res.0.stage() == UnpaidStage::Connecting,
            res.0.caller() == caller,
            res.1 is Connect,
    {
        (CancelUnpaid { stage: UnpaidStage::Connecting, caller, car_id: 0, owner_checked: false }, UnpaidAction::Connect)
    }

    /// Whether `event` answers the action that the stage waits on.
    pub fn expects(&self, event: &UnpaidEvent) -> (res: bool)
        ensures
            res == self.accepts(*event),
    {
        match self.stage {
            UnpaidStage::Connecting => matches!(event, UnpaidEvent::Connected(_)),
            UnpaidStage::Beginning => matches!(event, UnpaidEvent::Began(_)),
            UnpaidStage::LookingUp => matches!(event, UnpaidEvent::Found(_)),
            UnpaidStage::DeletingReservation => matches!(event, UnpaidEvent::ReservationDeleted(_)),
            UnpaidStage::DeletingLog => matches!(event, UnpaidEvent::LogDeleted(_)),
            UnpaidStage::ReleasingCar => matches!(event, UnpaidEvent::CarReleased(_)),
            UnpaidStage::Committing => matches!(event, UnpaidEvent::Committed(_)),
            UnpaidStage::Finished => false,
        }
    }

    /// Takes the store's report on the last action and decides the next one.
    /// Nothing is deleted unless the reservation belongs to the caller; any
    /// failed write rolls the transaction back.
    pub fn step(self, event: UnpaidEvent) -> (res: (CancelUnpaid, UnpaidAction))
        requires
            self.accepts(event),
        ensures
            res.0.caller() == self.caller(),
            ({
                let (next, action) = res;
                match event {
                    UnpaidEvent::Connected(Err(_)) => next.stage() == UnpaidStage::Finished
                        && action == UnpaidAction::Respond(Err(HttpStatus::InternalServerError)),
                    UnpaidEvent::Connected(Ok(())) => next.stage() == UnpaidStage::Beginning
                        && action is BeginTransaction,
                    UnpaidEvent::Began(Err(_)) => next.stage() == UnpaidStage::Finished
                        && action == UnpaidAction::Respond(Err(HttpStatus::InternalServerError)),
                    UnpaidEvent::Began(Ok(())) => next.stage() == UnpaidStage::LookingUp
                        && action is LookUpReservation,
                    UnpaidEvent::Found(Err(_)) => next.stage() == UnpaidStage::Finished
                        && action == UnpaidAction::Respond(Err(HttpStatus::InternalServerError)),
                    UnpaidEvent::Found(Ok(None)) => next.stage() == UnpaidStage::Finished
                        && action == UnpaidAction::RollbackAndRespond(HttpStatus::NotFound),
                    UnpaidEvent::Found(Ok(Some(owner))) => if owner.user_id != self.caller() {
                        next.stage() == UnpaidStage::Finished
                            && action == UnpaidAction::RollbackAndRespond(HttpStatus::Forbidden)
                    } else {
                        next.stage() == UnpaidStage::DeletingReservation && next.car_id() == owner.car_id
                            && action is DeleteReservation
                    },
                    UnpaidEvent::ReservationDeleted(Err(_)) => next.stage() == UnpaidStage::Finished
                        && action == UnpaidAction::RollbackAndRespond(HttpStatus::InternalServerError),
                    UnpaidEvent::ReservationDeleted(Ok(())) => next.stage() == UnpaidStage::DeletingLog
                        && next.car_id() == self.car_id() && action is DeleteLog,
                    UnpaidEvent::LogDeleted(Err(_)) => next.stage() == UnpaidStage::Finished
                        && action == UnpaidAction::RollbackAndRespond(HttpStatus::InternalServerError),
                    UnpaidEvent::LogDeleted(Ok(())) => next.stage() == UnpaidStage::ReleasingCar
                        && (action matches UnpaidAction::ReleaseCar { car_id, status }
                            && car_id == self.car_id() && status@ == released_status()),
                    UnpaidEvent::CarReleased(Err(_)) => next.stage() == UnpaidStage::Finished
                        && action == UnpaidAction::RollbackAndRespond(HttpStatus::InternalServerError),
                    UnpaidEvent::CarReleased(Ok(())) => next.stage() == UnpaidStage::Committing
                        && action is Commit,
                    UnpaidEvent::Committed(Err(_)) => next.stage() == UnpaidStage::Finished
                        && action == UnpaidAction::Respond(Err(HttpStatus::InternalServerError)),
                    UnpaidEvent::Committed(Ok(())) => next.stage() == UnpaidStage::Finished
                        && action == UnpaidAction::Respond(Ok(HttpStatus::Success)),
                }
            }),
            // Only the caller's own reservation is ever deleted or withdrawn.
            (res.1 is DeleteReservation || res.1 is DeleteLog || res.1 is ReleaseCar
                || res.1 == UnpaidAction::Respond(Ok(HttpStatus::Success))) ==> res.0.owner_checked(),
            res.1 is DeleteReservation ==> (event matches UnpaidEvent::Found(Ok(Some(o)))
                && o.user_id == self.caller()),
    {
        proof {
            use_type_invariant(&self);
        }
        let caller = self.caller;
        let car_id = self.car_id;
        let checked = self.owner_checked;
        let at = |stage: UnpaidStage| -> (r: CancelUnpaid)
            requires
                (stage == UnpaidStage::DeletingReservation || stage == UnpaidStage::DeletingLog
                    || stage == UnpaidStage::ReleasingCar || stage == UnpaidStage::Committing) ==> checked,
            ensures
                r.stage == stage && r.caller == caller && r.car_id == car_id && r.owner_checked == checked,
        {
            CancelUnpaid { stage, caller, car_id, owner_checked: checked }
        };
        match event {
            UnpaidEvent::Connected(Err(_)) => (at(UnpaidStage::Finished), UnpaidAction::Respond(Err(HttpStatus::InternalServerError))),
            UnpaidEvent::Connected(Ok(())) => (at(UnpaidStage::Beginning), UnpaidAction::BeginTransaction),
            UnpaidEvent::Began(Err(_)) => (at(UnpaidStage::Finished), UnpaidAction::Respond(Err(HttpStatus::InternalServerError))),
            UnpaidEvent::Began(Ok(())) => (at(UnpaidStage::LookingUp), UnpaidAction::LookUpReservation),
            UnpaidEvent::Found(Err(_)) => (at(UnpaidStage::Finished), UnpaidAction::Respond(Err(HttpStatus::InternalServerError))),
            UnpaidEvent::Found(Ok(None)) => (at(UnpaidStage::Finished), UnpaidAction::RollbackAndRespond(HttpStatus::NotFound)),
            UnpaidEvent::Found(Ok(Some(owner))) => {
                if owner.user_id != caller {
                    (at(UnpaidStage::Finished), UnpaidAction::RollbackAndRespond(HttpStatus::Forbidden))
                } else {
                    (
                        CancelUnpaid {
                            stage: UnpaidStage::DeletingReservation,
                            caller,
                            car_id: owner.car_id,
                            owner_checked: true,
                        },
                        UnpaidAction::DeleteReservation,
                    )
                }
            },
            UnpaidEvent::ReservationDeleted(Err(_)) => (at(UnpaidStage::Finished), UnpaidAction::RollbackAndRespond(HttpStatus::InternalServerError)),
            UnpaidEvent::ReservationDeleted(Ok(())) => (at(UnpaidStage::DeletingLog), UnpaidAction::DeleteLog),
            UnpaidEvent::LogDeleted(Err(_)) => (at(UnpaidStage::Finished), UnpaidAction::RollbackAndRespond(HttpStatus::InternalServerError)),
            UnpaidEvent::LogDeleted(Ok(())) => {
                proof {
                    reveal_strlit("Available");
                }
                (
                    at(UnpaidStage::ReleasingCar),
                    UnpaidAction::ReleaseCar { car_id, status: String::from_str("Available") },
                )
            },
            UnpaidEvent::CarReleased(Err(_)) => (at(UnpaidStage::Finished), UnpaidAction::RollbackAndRespond(HttpStatus::InternalServerError)),
            UnpaidEvent::CarReleased(Ok(())) => (at(UnpaidStage::Committing), UnpaidAction::Commit),
            UnpaidEvent::Committed(Err(_)) => (at(UnpaidStage::Finished), UnpaidAction::Respond(Err(HttpStatus::InternalServerError))),
            UnpaidEvent::Committed(Ok(())) => (at(UnpaidStage::Finished), UnpaidAction::Respond(Ok(HttpStatus::Success))),
        }
    }
}

/// What a booking and its withdrawal touch in the store: the reservations'
/// identifiers, the identifiers in the reservation log, and each car's status.
pub type BookingRows = (Set<Seq<char>>, Set<Seq<char>>, Map<i32, Seq<char>>);

/// What an action of a booking of car `car` does to those rows: writing the
/// reservation adds its identifier to the reservations and to the log, and
/// marking the car sets its status; the other actions change none of them.
pub open spec fn booking_effect(rows: BookingRows, action: CreateAction, car: i32) -> BookingRows {
    match action {
        CreateAction::InsertReservation { reservation_id, .. } => (
            rows.0.insert(reservation_id@),
            rows.1.insert(reservation_id@),
            rows.2,
        ),
        CreateAction::MarkCarUnavailable { status } => (rows.0, rows.1, rows.2.insert(car, status@)),
        _ => rows,
    }
}

/// What an action of the withdrawal of reservation `id` does to those rows:
/// the deletions take the identifier out of the reservations and the log,
/// and releasing a car sets its status; the other actions change none of
/// them.
pub open spec fn withdrawal_effect(rows: BookingRows, action: UnpaidAction, id: Seq<char>) -> BookingRows {
    match action {
        UnpaidAction::DeleteReservation => (rows.0.remove(id), rows.1, rows.2),
        UnpaidAction::DeleteLog => (rows.0, rows.1.remove(id), rows.2),
        UnpaidAction::ReleaseCar { car_id, status } => (rows.0, rows.1, rows.2.insert(car_id, status@)),
        _ => rows,
    }
}

/// Withdrawing an unpaid booking undoes it. Take the actions that the two
/// workflows' `step` contracts give on their successful paths: the booking's
/// write under a new identifier and its marking of car `car` with the booked
/// status, then the withdrawal's two deletions and its release, with the
/// released status, of the car the reservation names, which is `car`. From a
/// store where the identifier is new and the car available, they leave the
/// reservations, the log and the cars as they were.
pub proof fn law_withdrawal_undoes_booking(
    rows: BookingRows,
    car: i32,
    insert: CreateAction,
    mark: CreateAction,
    delete: UnpaidAction,
    delete_log: UnpaidAction,
    release: UnpaidAction,
)
    requires
        insert matches CreateAction::InsertReservation { reservation_id, .. } && !rows.0.contains(reservation_id@)
            && !rows.1.contains(reservation_id@),
        mark matches CreateAction::MarkCarUnavailable { status } && status@ == booked_status(),
        delete is DeleteReservation,
        delete_log is DeleteLog,
        release matches UnpaidAction::ReleaseCar { car_id, status } && car_id == car && status@ == released_status(),
        rows.2.contains_key(car),
        rows.2[car] == released_status(),
    ensures
        ({
            let id = insert->reservation_id@;
            let booked = booking_effect(booking_effect(rows, insert, car), mark, car);
            let withdrawn = withdrawal_effect(
                withdrawal_effect(withdrawal_effect(booked, delete, id), delete_log, id),
                release,
                id,
            );
            withdrawn == rows
        }),
{
    let id = insert->reservation_id@;
    let booked = booking_effect(booking_effect(rows, insert, car), mark, car);
    let withdrawn = withdrawal_effect(
        withdrawal_effect(withdrawal_effect(booked, delete, id), delete_log, id),
        release,
        id,
    );
    assert(withdrawn.0 =~= rows.0);
    assert(withdrawn.1 =~= rows.1);
    assert(withdrawn.2 =~= rows.2);
}

} // verus!
