use rand::SeedableRng;
use server::cancel_reservation::{CancelAction, CancelEvent, CancelReservation};
use server::cancel_unpaid::{CancelUnpaid, ReservationOwner, UnpaidAction, UnpaidEvent};
use server::clock::DateTimeValue;
use server::create_reservation::{CreateAction, CreateEvent, CreateReservation};
use server::http::HttpStatus;
use server::return_car::{lateness, return_response, status_after_return, ReturnAction, ReturnCar, ReturnEvent, ReturnRecord};

fn booking_until_status(status: Option<&str>) -> (CreateReservation, CreateAction) {
    let mut rng = rand::rngs::StdRng::seed_from_u64(1);
    let (s, a) = CreateReservation::start();
    assert!(matches!(a, CreateAction::Connect));
    let (s, a) = s.step(CreateEvent::Connected(Ok(())), &mut rng);
    assert!(matches!(a, CreateAction::BeginTransaction));
    let (s, a) = s.step(CreateEvent::Began(Ok(())), &mut rng);
    assert!(matches!(a, CreateAction::ReadCarStatus));
    s.step(CreateEvent::CarStatusRead(Ok(status.map(String::from))), &mut rng)
}

#[test]
fn booking_succeeds_on_an_available_car() {
    let mut rng = rand::rngs::StdRng::seed_from_u64(2);
    let (s, a) = booking_until_status(Some("Available"));
    let id = match a {
        CreateAction::InsertReservation { reservation_id, status } => {
            assert_eq!(status, "pending");
            reservation_id
        },
        _ => panic!("expected an insert"),
    };
    assert!(id.starts_with("RSV-"));
    assert!(s.expects(&CreateEvent::Inserted(Ok(()), Ok(()))));
    let (s, a) = s.step(CreateEvent::Inserted(Ok(()), Ok(())), &mut rng);
    let written = match a {
        CreateAction::MarkCarUnavailable { status } => status,
        _ => panic!("expected the car to be marked"),
    };
    assert_eq!(written, "Unavailable");
    let (s, a) = s.step(CreateEvent::CarMarked(Ok(1)), &mut rng);
    assert!(matches!(a, CreateAction::Commit));
    let (s, a) = s.step(CreateEvent::Committed(Ok(())), &mut rng);
    match a {
        CreateAction::Respond(Ok(confirmed)) => assert_eq!(confirmed, id),
        _ => panic!("expected the identifier"),
    }
    assert!(!s.expects(&CreateEvent::Committed(Ok(()))));
}

#[test]
fn booking_status_is_read_case_insensitively() {
    let (_, a) = booking_until_status(Some("AVAILABLE"));
    assert!(matches!(a, CreateAction::InsertReservation { .. }));
    let (_, a) = booking_until_status(Some("Unavailable"));
    match a {
        CreateAction::RollbackAndRespond(f) => {
            assert_eq!(f.status, HttpStatus::BadRequest);
            assert_eq!(f.message, "차량 사용 불가");
        },
        _ => panic!("expected a refusal"),
    }
}

#[test]
fn booking_a_missing_car_is_not_found() {
    let (_, a) = booking_until_status(None);
    match a {
        CreateAction::RollbackAndRespond(f) => {
            assert_eq!(f.status, HttpStatus::NotFound);
            assert_eq!(f.message, "차량 없음");
        },
        _ => panic!("expected a refusal"),
    }
}

#[test]
fn booking_failures_carry_the_store_error() {
    let mut rng = rand::rngs::StdRng::seed_from_u64(3);
    let (s, _) = CreateReservation::start();
    let (_, a) = s.step(CreateEvent::Connected(Err("timeout".into())), &mut rng);
    match a {
        CreateAction::Respond(Err(f)) => {
            assert_eq!(f.status, HttpStatus::InternalServerError);
            assert_eq!(f.message, "DB 연결 실패: timeout");
        },
        _ => panic!(),
    }
    let (s, _) = booking_until_status(Some("available"));
    let (_, a) = s.step(CreateEvent::Inserted(Ok(()), Err("dup".into())), &mut rng);
    match a {
        CreateAction::RollbackAndRespond(f) => assert_eq!(f.message, "로그 저장 실패: dup"),
        _ => panic!(),
    }
    let (s, _) = booking_until_status(Some("available"));
    let (s, _) = s.step(CreateEvent::Inserted(Ok(()), Ok(())), &mut rng);
    let (_, a) = s.step(CreateEvent::CarMarked(Ok(0)), &mut rng);
    match a {
        CreateAction::RollbackAndRespond(f) => assert_eq!(f.message, "차량 상태 업데이트 실패"),
        _ => panic!(),
    }
}

#[test]
fn withdrawal_is_only_for_the_owner() {
    let (s, _) = CancelUnpaid::start(7);
    let (s, _) = s.step(UnpaidEvent::Connected(Ok(())));
    let (s, _) = s.step(UnpaidEvent::Began(Ok(())));
    let (_, a) = s.step(UnpaidEvent::Found(Ok(Some(ReservationOwner { user_id: 8, car_id: 3 }))));
    assert!(matches!(a, UnpaidAction::RollbackAndRespond(HttpStatus::Forbidden)));
}

#[test]
fn withdrawal_runs_to_the_end() {
    let (s, _) = CancelUnpaid::start(7);
    let (s, _) = s.step(UnpaidEvent::Connected(Ok(())));
    let (s, _) = s.step(UnpaidEvent::Began(Ok(())));
    let (s, a) = s.step(UnpaidEvent::Found(Ok(Some(ReservationOwner { user_id: 7, car_id: 3 }))));
    assert!(matches!(a, UnpaidAction::DeleteReservation));
    let (s, a) = s.step(UnpaidEvent::ReservationDeleted(Ok(())));
    assert!(matches!(a, UnpaidAction::DeleteLog));
    let (s, a) = s.step(UnpaidEvent::LogDeleted(Ok(())));
    match &a {
        UnpaidAction::ReleaseCar { car_id, status } => {
            assert_eq!(*car_id, 3);
            assert_eq!(status, "Available");
        },
        _ => panic!("expected the car to be released"),
    }
    let (s, a) = s.step(UnpaidEvent::CarReleased(Ok(())));
    assert!(matches!(a, UnpaidAction::Commit));
    let (_, a) = s.step(UnpaidEvent::Committed(Ok(())));
    assert!(matches!(a, UnpaidAction::Respond(Ok(HttpStatus::Success))));
}

#[test]
fn withdrawal_failures() {
    let (s, _) = CancelUnpaid::start(1);
    let (s, _) = s.step(UnpaidEvent::Connected(Ok(())));
    let (s, _) = s.step(UnpaidEvent::Began(Ok(())));
    let (_, a) = s.step(UnpaidEvent::Found(Ok(None)));
    assert!(matches!(a, UnpaidAction::RollbackAndRespond(HttpStatus::NotFound)));
    let (s, _) = CancelUnpaid::start(1);
    let (_, a) = s.step(UnpaidEvent::Connected(Err("down".into())));
    assert!(matches!(a, UnpaidAction::Respond(Err(HttpStatus::InternalServerError))));
}

#[test]
fn cancellation_runs_to_the_end() {
    let (s, _) = CancelReservation::start(4);
    let (s, _) = s.step(CancelEvent::Connected(Ok(())));
    let (s, _) = s.step(CancelEvent::Began(Ok(())));
    let (s, a) = s.step(CancelEvent::Found(Ok(Some(ReservationOwner { user_id: 4, car_id: 11 }))));
    assert!(matches!(a, CancelAction::MarkLogCanceled { ref status } if status == "canceled"));
    let (s, a) = s.step(CancelEvent::LogMarked(Ok(())));
    assert!(matches!(a, CancelAction::DeleteReservation));
    let (s, a) = s.step(CancelEvent::ReservationDeleted(Ok(())));
    assert!(matches!(a, CancelAction::ReleaseCar { car_id: 11, ref status } if status == "Available"));
    let (s, a) = s.step(CancelEvent::CarReleased(Err("ignored".into())));
    assert!(matches!(a, CancelAction::Commit));
    let (_, a) = s.step(CancelEvent::Committed(Ok(())));
    match a {
        CancelAction::Respond(Ok(r)) => assert_eq!(r.message, "예약이 성공적으로 취소되었습니다."),
        _ => panic!(),
    }
}

#[test]
fn cancellation_of_another_users_reservation_is_forbidden() {
    let (s, _) = CancelReservation::start(4);
    let (s, _) = s.step(CancelEvent::Connected(Ok(())));
    let (s, _) = s.step(CancelEvent::Began(Ok(())));
    let (_, a) = s.step(CancelEvent::Found(Ok(Some(ReservationOwner { user_id: 5, car_id: 11 }))));
    assert!(matches!(a, CancelAction::RollbackAndRespond(HttpStatus::Forbidden)));
}

fn return_until_found(caller: i32, record: ReturnRecord) -> (ReturnCar, ReturnAction) {
    let (s, _) = ReturnCar::start(caller);
    let (s, _) = s.step(ReturnEvent::Connected(Ok(())));
    let (s, _) = s.step(ReturnEvent::Began(Ok(())));
    s.step(ReturnEvent::Found(Ok(Some(record))))
}

#[test]
fn an_early_return_completes_without_fee() {
    let due = DateTimeValue { day: 3_000_000, seconds: 0, nanos: 0 };
    let (s, a) = return_until_found(2, ReturnRecord { user_id: 2, car_id: 8, return_date: due });
    match a {
        ReturnAction::RecordReturn { status, fee, .. } => {
            assert_eq!(status, "completed");
            assert_eq!(fee, 0);
        },
        _ => panic!("expected the return to be recorded"),
    }
    let (s, a) = s.step(ReturnEvent::Recorded(Ok(())));
    assert!(matches!(a, ReturnAction::ReleaseCar { car_id: 8, ref status } if status == "Available"));
    let (s, _) = s.step(ReturnEvent::CarReleased(Ok(())));
    let (_, a) = s.step(ReturnEvent::Committed(Ok(())));
    match a {
        ReturnAction::Respond(Ok(r)) => {
            assert_eq!(r.message, "차량이 성공적으로 반납 처리되었습니다.");
            assert_eq!(r.overdue_fee, None);
        },
        _ => panic!(),
    }
}

#[test]
fn a_late_return_is_priced_and_overdue() {
    let due = DateTimeValue { day: 700_000, seconds: 0, nanos: 0 };
    let (s, a) = return_until_found(2, ReturnRecord { user_id: 2, car_id: 8, return_date: due });
    match a {
        ReturnAction::PriceDelay { car_id, overdue_hours } => {
            assert_eq!(car_id, 8);
            assert!(overdue_hours > 24);
        },
        _ => panic!("expected pricing"),
    }
    let (s, a) = s.step(ReturnEvent::Priced(Ok(4500)));
    match a {
        ReturnAction::RecordReturn { status, fee, .. } => {
            assert_eq!(status, "overdue");
            assert_eq!(fee, 4500);
        },
        _ => panic!(),
    }
    let (s, _) = s.step(ReturnEvent::Recorded(Ok(())));
    let (s, _) = s.step(ReturnEvent::CarReleased(Err("x".into())));
    let (_, a) = s.step(ReturnEvent::Committed(Ok(())));
    match a {
        ReturnAction::Respond(Ok(r)) => {
            assert_eq!(r.message, "차량이 연체되었습니다. 연체료 결제 페이지로 이동합니다.");
            assert_eq!(r.overdue_fee, Some(4500));
        },
        _ => panic!(),
    }
}

#[test]
fn returns_by_others_are_forbidden() {
    let due = DateTimeValue { day: 700_000, seconds: 0, nanos: 0 };
    let (_, a) = return_until_found(2, ReturnRecord { user_id: 3, car_id: 8, return_date: due });
    assert!(matches!(a, ReturnAction::RollbackAndRespond(HttpStatus::Forbidden)));
}

#[test]
fn return_answers_follow_the_fee() {
    assert_eq!(status_after_return(1), "overdue");
    assert_eq!(status_after_return(0), "completed");
    assert_eq!(status_after_return(-5), "completed");
    assert_eq!(return_response(-5).overdue_fee, None);
    assert_eq!(return_response(12).overdue_fee, Some(12));
}

#[test]
fn a_booked_car_cannot_be_booked_again() {
    let mut rng = rand::rngs::StdRng::seed_from_u64(5);
    let (s, _) = booking_until_status(Some("Available"));
    let (_, a) = s.step(CreateEvent::Inserted(Ok(()), Ok(())), &mut rng);
    let written = match a {
        CreateAction::MarkCarUnavailable { status } => status,
        _ => panic!("expected the car to be marked"),
    };
    let (_, again) = booking_until_status(Some(written.as_str()));
    match again {
        CreateAction::RollbackAndRespond(f) => {
            assert_eq!(f.status, HttpStatus::BadRequest);
            assert_eq!(f.message, "차량 사용 불가");
        },
        _ => panic!("expected a refusal"),
    }
}

#[test]
fn a_later_return_is_never_less_late() {
    let due = DateTimeValue { day: 739000, seconds: 10 * 3600, nanos: 500 };
    let readings = [
        DateTimeValue { day: 738999, seconds: 0, nanos: 0 },
        DateTimeValue { day: 739000, seconds: 10 * 3600, nanos: 500 },
        DateTimeValue { day: 739000, seconds: 11 * 3600, nanos: 499 },
        DateTimeValue { day: 739000, seconds: 11 * 3600, nanos: 500 },
        DateTimeValue { day: 739001, seconds: 0, nanos: 0 },
        DateTimeValue { day: 739003, seconds: 86_399, nanos: 999_999_999 },
    ];
    let hours: Vec<i64> = readings.iter().map(|now| lateness(due, *now).unwrap_or(0)).collect();
    assert_eq!(hours, vec![0, 0, 0, 1, 13, 85]);
    assert!(hours.windows(2).all(|w| w[0] <= w[1]));
}
