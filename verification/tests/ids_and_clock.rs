use rand::SeedableRng;
use server::clock::{hours_between, is_earlier, DateTimeValue};
use server::ids::{generate_reservation_id, reservation_id_text, transaction_id_text};
use server::return_car::lateness;

#[test]
fn writes_reservation_identifiers() {
    assert_eq!(reservation_id_text(1700000000123456789, 42), "RSV-1700000000123456789-42");
    assert_eq!(reservation_id_text(-5, 7), "RSV--5-7");
    assert_eq!(reservation_id_text(0, u32::MAX), "RSV-0-4294967295");
}

#[test]
fn identifiers_tell_their_parts_apart() {
    // "RSV-1-23" and "RSV-12-3" must differ: the separator fixes the parts.
    assert_ne!(reservation_id_text(1, 23), reservation_id_text(12, 3));
    assert_ne!(reservation_id_text(-1, 2), reservation_id_text(1, 2));
    assert_ne!(transaction_id_text(10), transaction_id_text(1));
}

#[test]
fn writes_transaction_identifiers() {
    assert_eq!(transaction_id_text(0), "TXN-0");
    assert_eq!(transaction_id_text(987654321), "TXN-987654321");
}

#[test]
fn generated_identifiers_have_the_shape() {
    let mut rng = rand::rngs::StdRng::seed_from_u64(7);
    let id = generate_reservation_id(&mut rng);
    let parts: Vec<&str> = id.split('-').collect();
    assert_eq!(parts[0], "RSV");
    assert_eq!(parts.len(), 3);
    assert!(parts[1].parse::<i64>().unwrap() > 0);
    assert!(parts[2].parse::<u32>().is_ok());
}

fn at(day: i32, seconds: u32, nanos: u32) -> DateTimeValue {
    DateTimeValue { day, seconds, nanos }
}

#[test]
fn counts_whole_hours_toward_zero() {
    assert_eq!(hours_between(at(10, 0, 0), at(10, 3600 * 5 + 3599, 999_999_999)), 5);
    assert_eq!(hours_between(at(10, 0, 0), at(11, 0, 0)), 24);
    assert_eq!(hours_between(at(11, 0, 0), at(10, 1, 0)), -23);
    assert_eq!(hours_between(at(10, 7200, 0), at(10, 0, 1)), -1);
}

#[test]
fn orders_moments() {
    assert!(is_earlier(at(1, 5, 0), at(1, 5, 1)));
    assert!(!is_earlier(at(1, 5, 1), at(1, 5, 1)));
    assert!(is_earlier(at(0, 86399, 0), at(1, 0, 0)));
}

#[test]
fn late_returns_count_the_hours() {
    assert_eq!(lateness(at(100, 0, 0), at(100, 0, 0)), None);
    assert_eq!(lateness(at(100, 0, 0), at(99, 0, 0)), None);
    assert_eq!(lateness(at(100, 0, 0), at(100, 3 * 3600 + 10, 0)), Some(3));
    assert_eq!(lateness(at(100, 0, 0), at(100, 59, 0)), Some(0));
}
