use rand::SeedableRng;
use rand_chacha::ChaCha8Rng;
use server::add_car::{image_path, AddCar, AddCarAction, AddCarEvent};
use server::cars::{car_not_found, car_update_answer, overdue_facts, removal_after_lookup, removal_answer, require_car_id, RemovalStep};
use server::clock::DateTimeValue;
use server::http::HttpStatus;
use server::payment::{payment_details_ok, Payment, PaymentAction, PaymentEvent, PaymentInfo};

fn card() -> PaymentInfo {
    PaymentInfo {
        card_number: "1234567812345678".into(),
        expiry_date: "12/29".into(),
        cvc: "123".into(),
        cardholder_name: "홍길동".into(),
        reservation_id: 5,
        total_amount: 45000,
        payment_method: "card".into(),
        payment_type: "overdue".into(),
    }
}

#[test]
fn card_checks_count_bytes() {
    assert!(payment_details_ok(&card()));
    let mut short = card();
    short.card_number = "123456781234567".into();
    assert!(!payment_details_ok(&short));
    let mut wide = card();
    wide.card_number = "카드번호여섯".into(); // 18 bytes
    assert!(payment_details_ok(&wide));
    let mut expiry = card();
    expiry.expiry_date = "12/2029".into();
    assert!(!payment_details_ok(&expiry));
    let mut free = card();
    free.total_amount = 0;
    assert!(!payment_details_ok(&free));
    let mut nameless = card();
    nameless.cardholder_name = String::new();
    assert!(!payment_details_ok(&nameless));
}

#[test]
fn malformed_payments_are_refused() {
    let mut rng = ChaCha8Rng::seed_from_u64(1);
    let mut bad = card();
    bad.cvc = "12".into();
    let r = Payment::start(&bad, &mut rng).err().unwrap();
    assert!(!r.success);
    assert_eq!(r.message, "결제 정보가 올바르지 않습니다.");
    assert_eq!(r.transaction_id, None);
}

#[test]
fn refused_payments_draw_nothing() {
    let mut rng = ChaCha8Rng::seed_from_u64(9);
    let before = rng.clone();
    let mut bad = card();
    bad.card_number = "1234".into();
    bad.expiry_date = "12/25".into();
    bad.cvc = "123".into();
    assert!(Payment::start(&bad, &mut rng).is_err());
    assert!(rng == before);
    assert!(Payment::start(&card(), &mut rng).is_ok());
    assert!(rng != before);
}

#[test]
fn card_details_matter_only_through_their_validity() {
    let mut other = card();
    other.card_number = "9999888877775678".into();
    other.cvc = "987".into();
    other.expiry_date = "01/30".into();
    other.cardholder_name = "Lee".into();
    let mut rng1 = ChaCha8Rng::seed_from_u64(3);
    let mut rng2 = ChaCha8Rng::seed_from_u64(3);
    let (_, a1) = Payment::start(&card(), &mut rng1).ok().unwrap();
    let (_, a2) = Payment::start(&other, &mut rng2).ok().unwrap();
    match (a1, a2) {
        (
            PaymentAction::Connect { successful: s1, transaction_id: t1, log_line: l1 },
            PaymentAction::Connect { successful: s2, transaction_id: t2, log_line: l2 },
        ) => {
            assert_eq!(s1, s2);
            assert_eq!(t1, t2);
            assert_eq!(l1, l2);
        },
        _ => panic!(),
    }
}

#[test]
fn payments_follow_the_draw() {
    let mut rng = ChaCha8Rng::seed_from_u64(42);
    let mut seen_success = false;
    let mut seen_failure = false;
    for _ in 0..40 {
        let (p, a) = Payment::start(&card(), &mut rng).ok().unwrap();
        let (successful, txn) = match a {
            PaymentAction::Connect { successful, transaction_id, log_line } => {
                assert_eq!(
                    log_line,
                    format!(
                        "가상 결제 처리: 카드 끝 4자리 ****-****-****-5678, 예약 ID 5, 금액 45000원, 방법 card, 유형 overdue, 성공: {}",
                        successful
                    )
                );
                (successful, transaction_id)
            },
            _ => panic!(),
        };
        assert!(txn.starts_with("TXN-"));
        let (p, a) = p.step(PaymentEvent::Connected(Ok(())));
        if successful {
            seen_success = true;
            match a {
                PaymentAction::RecordCompleted { record, transaction_id, status } => {
                    assert_eq!((record.reservation_id, record.amount), (5, 45000));
                    assert_eq!((record.method.as_str(), record.payment_type.as_str()), ("card", "overdue"));
                    assert_eq!(transaction_id, txn);
                    assert_eq!(status, "completed");
                },
                _ => panic!(),
            }
            let (p, a) = p.step(PaymentEvent::CompletedRecorded(Ok(1)));
            assert!(matches!(a, PaymentAction::MarkReservationCompleted { reservation_id: 5, ref status } if status == "completed"));
            let (_, a) = p.step(PaymentEvent::ReservationMarked(Ok(())));
            match a {
                PaymentAction::Respond(Ok(r)) => {
                    assert!(r.success);
                    assert_eq!(r.message, "결제가 완료되었습니다.");
                    assert_eq!(r.transaction_id, Some(txn));
                },
                _ => panic!(),
            }
        } else {
            seen_failure = true;
            assert!(matches!(a, PaymentAction::RecordFailed { ref record, ref status } if status == "failed" && record.amount == 45000));
            let (_, a) = p.step(PaymentEvent::FailedRecorded(Err("ignored".into())));
            match a {
                PaymentAction::Respond(Ok(r)) => {
                    assert!(!r.success);
                    assert_eq!(r.transaction_id, None);
                },
                _ => panic!(),
            }
        }
    }
    assert!(seen_success && seen_failure);
}

#[test]
fn unrecorded_payments_are_reported() {
    let mut rng = ChaCha8Rng::seed_from_u64(42);
    let mut info = card();
    info.payment_type = "reservation".into();
    loop {
        let (p, a) = Payment::start(&info, &mut rng).ok().unwrap();
        if let PaymentAction::Connect { successful: true, transaction_id, .. } = a {
            let (p, _) = p.step(PaymentEvent::Connected(Ok(())));
            let (_, a) = p.step(PaymentEvent::CompletedRecorded(Ok(0)));
            match a {
                PaymentAction::Respond(Ok(r)) => {
                    assert!(!r.success);
                    assert_eq!(r.message, "결제는 성공했지만, 결제 정보를 저장하는 데 실패했습니다.");
                    assert_eq!(r.transaction_id, Some(transaction_id));
                },
                _ => panic!(),
            }
            break;
        }
    }
}

#[test]
fn image_paths_name_car_time_and_position() {
    assert_eq!(image_path(7, 1700000000, 0), "static/car_images/car_7_1700000000_0.jpg");
    assert_eq!(image_path(12, -1, 3), "static/car_images/car_12_-1_3.jpg");
}

#[test]
fn adding_a_car_registers_each_image() {
    let (s, a) = AddCar::start(2, 42);
    match a {
        AddCarAction::InsertCar { owner, status } => {
            assert_eq!(owner, 42);
            assert_eq!(status, "Available");
        },
        _ => panic!(),
    }
    let (s, a) = s.step(AddCarEvent::CarInserted(Ok(7)));
    let first = match a {
        AddCarAction::CopyImage { index, path, make_folder } => {
            assert_eq!(index, 0);
            assert!(make_folder);
            path
        },
        _ => panic!(),
    };
    assert!(first.starts_with("static/car_images/car_7_") && first.ends_with("_0.jpg"));
    let (s, a) = s.step(AddCarEvent::ImageCopied(Ok(())));
    match a {
        AddCarAction::RegisterImage { car_id, path, is_main } => {
            assert_eq!((car_id, is_main), (7, true));
            assert_eq!(path, first);
        },
        _ => panic!(),
    }
    let (s, a) = s.step(AddCarEvent::ImageRegistered(Ok(())));
    let second = match a {
        AddCarAction::CopyImage { index, path, make_folder } => {
            assert_eq!(index, 1);
            assert!(!make_folder);
            path
        },
        _ => panic!(),
    };
    let (s, a) = s.step(AddCarEvent::ImageCopied(Ok(())));
    assert!(matches!(a, AddCarAction::RegisterImage { is_main: false, .. }));
    let (s, a) = s.step(AddCarEvent::ImageRegistered(Ok(())));
    match a {
        AddCarAction::SaveUrls { car_id, json } => {
            assert_eq!(car_id, 7);
            assert_eq!(json, serde_json::to_string(&vec![first, second]).unwrap());
        },
        _ => panic!(),
    }
    let (_, a) = s.step(AddCarEvent::UrlsSaved(Ok(())));
    match a {
        AddCarAction::Respond(Ok(m)) => assert_eq!(m, "Car added successfully"),
        _ => panic!(),
    }
}

#[test]
fn adding_a_car_without_images_stores_an_empty_list() {
    let (s, _) = AddCar::start(0, 5);
    let (_, a) = s.step(AddCarEvent::CarInserted(Ok(3)));
    match a {
        AddCarAction::SaveUrls { car_id, json } => {
            assert_eq!(car_id, 3);
            assert_eq!(json, "[]");
        },
        _ => panic!(),
    }
}

#[test]
fn adding_a_car_stops_at_the_first_error() {
    let (s, _) = AddCar::start(1, 5);
    let (s, _) = s.step(AddCarEvent::CarInserted(Ok(3)));
    let (_, a) = s.step(AddCarEvent::ImageCopied(Err("disk full".into())));
    assert!(matches!(a, AddCarAction::Respond(Err(e)) if e == "disk full"));
}

#[test]
fn missing_cars_are_named() {
    let f = car_not_found(-12);
    assert_eq!(f.status, HttpStatus::NotFound);
    assert_eq!(f.message, "Car with ID -12 not found");
}

#[test]
fn updates_need_a_car() {
    assert_eq!(require_car_id(Some(4)), Ok(4));
    assert_eq!(require_car_id(None), Err("차량 ID가 필요합니다".to_string()));
    assert_eq!(car_update_answer(Ok(())), Ok("Car updated successfully".to_string()));
    assert_eq!(car_update_answer(Err("bad".into())), Err("bad".to_string()));
}

#[test]
fn only_owners_remove_cars() {
    assert!(matches!(removal_after_lookup(3, 9, Ok(Some(Some(9)))), RemovalStep::Remove));
    match removal_after_lookup(3, 9, Ok(Some(Some(10)))) {
        RemovalStep::Refuse(f) => {
            assert_eq!(f.status, HttpStatus::Forbidden);
            assert_eq!(f.message, "You do not have permission to delete this car.");
        },
        _ => panic!(),
    }
    match removal_after_lookup(3, 9, Ok(None)) {
        RemovalStep::Refuse(f) => assert_eq!(f.message, "Car with ID 3 not found"),
        _ => panic!(),
    }
    match removal_after_lookup(3, 9, Err("db".into())) {
        RemovalStep::Refuse(f) => {
            assert_eq!(f.status, HttpStatus::InternalServerError);
            assert_eq!(f.message, "Error retrieving car");
        },
        _ => panic!(),
    }
}

#[test]
fn removal_answers() {
    assert_eq!(
        removal_answer(Ok("Car deleted".into())).ok().unwrap(),
        "{\"status\": \"success\", \"message\": \"Car deleted\"}"
    );
    let reserved = removal_answer(Err("error returned from database: 차량이 예약중입니다".into())).err().unwrap();
    assert_eq!(reserved.status, HttpStatus::InternalServerError);
    assert_eq!(reserved.message, "{\"message\":\"차량이 예약중입니다\"}");
    let other = removal_answer(Err("lost connection".into())).err().unwrap();
    assert_eq!(other.message, "lost connection");
}

#[test]
fn late_return_summary() {
    let due = DateTimeValue { day: 739000, seconds: 36000, nanos: 0 };
    let back = DateTimeValue { day: 739001, seconds: 36000 + 1800, nanos: 0 };
    let f = overdue_facts("Hyundai", "Avante", due, Some(back), Some(54000));
    assert_eq!(f.car_info, "Hyundai Avante");
    assert_eq!(f.overdue_hours, 24);
    assert_eq!(f.total_overdue_fee, 54000);
    let g = overdue_facts("Kia", "K5", due, None, None);
    assert_eq!((g.overdue_hours, g.total_overdue_fee), (0, 0));
}
