use server::car_query::{car_list_outcome, plan_car_list, CarListOutcome, CarQuery};
use server::http::{HttpStatus, ReservationQuery};
use server::reservation_query::{plan_reservation_info, plan_reservation_list, reservation_info_answer, total_pages, ReservationListQuery};

const SELECT_CARS: &str = "SELECT id, plate_number, manufacturer, name, year, car_type, fuel_type, transmission, seat_num, color, image_url, daily_rate, location, rating, description, status FROM cars ";

fn empty_query() -> CarQuery {
    CarQuery {
        start: None,
        limit: None,
        sort: None,
        rental_date: None,
        return_date: None,
        min_daily_rate: None,
        max_daily_rate: None,
        car_type: None,
        fuel_type: None,
        transmission: None,
        status: None,
        owner_id: None,
    }
}

#[test]
fn plain_car_list_uses_defaults() {
    let plan = plan_car_list(&empty_query());
    assert_eq!(plan.count_sql, "SELECT COUNT(*) FROM cars ");
    assert_eq!(plan.select_sql, format!("{} ORDER BY name ASC LIMIT ? OFFSET ?", SELECT_CARS));
    assert!(plan.params.is_empty());
    assert_eq!(plan.limit, 6);
    assert_eq!(plan.offset, 0);
}

#[test]
fn zero_limit_falls_back_to_six() {
    let mut q = empty_query();
    q.limit = Some(0);
    q.start = Some(12);
    let plan = plan_car_list(&q);
    assert_eq!(plan.limit, 6);
    assert_eq!(plan.offset, 12);
    q.limit = Some(20);
    assert_eq!(plan_car_list(&q).limit, 20);
}

#[test]
fn sort_keys_choose_the_order() {
    let cases = [
        (Some("daily_rate_asc"), "ORDER BY daily_rate ASC"),
        (Some("daily_rate_desc"), "ORDER BY daily_rate DESC"),
        (Some("rating_desc"), "ORDER BY rating DESC"),
        (Some("rating_asc"), "ORDER BY rating ASC"),
        (Some("price"), "ORDER BY name ASC"),
        (None, "ORDER BY name ASC"),
    ];
    for (sort, order) in cases {
        let mut q = empty_query();
        q.sort = sort.map(String::from);
        let plan = plan_car_list(&q);
        assert_eq!(plan.select_sql, format!("{} {} LIMIT ? OFFSET ?", SELECT_CARS, order));
    }
}

#[test]
fn every_filter_is_written_in_order() {
    let q = CarQuery {
        start: Some(6),
        limit: Some(3),
        sort: Some("rating_desc".into()),
        rental_date: Some("2025-06-01".into()),
        return_date: Some("2025-06-05".into()),
        min_daily_rate: Some(30000),
        max_daily_rate: Some(-5),
        car_type: Some("SUV,세단".into()),
        fuel_type: Some("electric".into()),
        transmission: Some("auto,manual,".into()),
        status: Some("Available".into()),
        owner_id: Some(9),
    };
    let plan = plan_car_list(&q);
    let availability = "id NOT IN (\n                    SELECT car_id FROM reservation\n                    WHERE NOT (\n                        return_date < ? OR rental_date > ?\n                    )\n                )";
    let where_clause = format!(
        "WHERE {} AND daily_rate >= ? AND daily_rate <= ? AND car_type IN (?,?) AND fuel_type IN (?) AND transmission IN (?,?,?) AND status IN (?) AND owner = ?",
        availability
    );
    assert_eq!(plan.count_sql, format!("SELECT COUNT(*) FROM cars {}", where_clause));
    assert_eq!(plan.select_sql, format!("{}{} ORDER BY rating DESC LIMIT ? OFFSET ?", SELECT_CARS, where_clause));
    assert_eq!(
        plan.params,
        vec!["2025-06-01", "2025-06-05", "30000", "-5", "SUV", "세단", "electric", "auto", "manual", "", "Available", "9"]
    );
    assert_eq!(plan.select_sql.matches('?').count(), plan.params.len() + 2);
    assert_eq!(plan.count_sql.matches('?').count(), plan.params.len());
    assert_eq!((plan.limit, plan.offset), (3, 6));
}

#[test]
fn a_period_needs_both_dates() {
    let mut q = empty_query();
    q.rental_date = Some("2025-06-01".into());
    let plan = plan_car_list(&q);
    assert_eq!(plan.count_sql, "SELECT COUNT(*) FROM cars ");
    assert!(plan.params.is_empty());
}

fn reservation_query(user_id: i32) -> ReservationListQuery {
    ReservationListQuery {
        user_id,
        page: None,
        limit: None,
        status: None,
        start_date: None,
        end_date: None,
        car_type: None,
    }
}

#[test]
fn reservation_list_defaults() {
    let plan = plan_reservation_list(&reservation_query(5));
    assert_eq!(plan.count_sql, "SELECT COUNT(*) FROM reservation r JOIN cars c ON r.car_id = c.id WHERE r.user_id = ?");
    assert_eq!(plan.params, vec!["5"]);
    assert_eq!((plan.limit, plan.offset, plan.page_size), (10, 0, 10));
    assert!(plan.select_sql.contains("WHERE r.user_id = ?\n            ORDER BY r.id DESC\n            LIMIT ? OFFSET ?"));
    assert!(plan.select_sql.starts_with("\n            SELECT r.reservation_id, c.image_url AS car_image_url"));
}

#[test]
fn reservation_list_filters() {
    let mut q = reservation_query(-3);
    q.page = Some(3);
    q.limit = Some(5);
    q.status = Some("completed".into());
    q.start_date = Some("2025-01-01".into());
    q.end_date = Some("2025-12-31".into());
    q.car_type = Some("SUV".into());
    let plan = plan_reservation_list(&q);
    assert_eq!(
        plan.count_sql,
        "SELECT COUNT(*) FROM reservation r JOIN cars c ON r.car_id = c.id WHERE r.user_id = ? AND r.reservation_status = ? AND r.rental_date >= ? AND r.return_date <= ? AND c.car_type = ?"
    );
    assert_eq!(plan.params, vec!["-3", "completed", "2025-01-01", "2025-12-31", "SUV"]);
    assert_eq!((plan.limit, plan.offset), (5, 10));
}

#[test]
fn status_all_and_empty_type_do_not_filter() {
    let mut q = reservation_query(1);
    q.status = Some("all".into());
    q.car_type = Some(String::new());
    let plan = plan_reservation_list(&q);
    assert_eq!(plan.params, vec!["1"]);
    assert!(plan.count_sql.ends_with("WHERE r.user_id = ?"));
}

#[test]
fn pages_round_up() {
    assert_eq!(total_pages(0, 10), 0);
    assert_eq!(total_pages(10, 10), 1);
    assert_eq!(total_pages(11, 10), 2);
    assert_eq!(total_pages(1, 10), 1);
    assert_eq!(total_pages(-4, 10), 0);
    assert_eq!(total_pages(5, 0), u64::MAX);
    assert_eq!(total_pages(0, 0), 0);
    for (t, l) in [(37i64, 6u64), (100, 7), (3, 3), (123456, 1000)] {
        assert_eq!(total_pages(t, l), (t as f64 / l as f64).ceil() as u64);
    }
}

fn marks(sql: &str) -> usize {
    sql.chars().filter(|c| *c == '?').count()
}

#[test]
fn every_car_filter_value_has_its_placeholder() {
    let q = CarQuery {
        start: Some(3),
        limit: Some(4),
        sort: Some(String::from("rating_desc")),
        rental_date: Some(String::from("2024-05-01")),
        return_date: Some(String::from("2024-05-03")),
        min_daily_rate: Some(30000),
        max_daily_rate: Some(90000),
        car_type: Some(String::from("SUV,Sedan")),
        fuel_type: Some(String::from("Gasoline,Diesel,Electric")),
        transmission: Some(String::from("Auto")),
        status: Some(String::from("Available")),
        owner_id: Some(7),
    };
    let plan = plan_car_list(&q);
    assert_eq!(plan.params.len(), 12);
    assert_eq!(marks(&plan.count_sql), plan.params.len());
    assert_eq!(marks(&plan.select_sql), plan.params.len() + 2);
    let plain = plan_car_list(&empty_query());
    assert_eq!(marks(&plain.count_sql), 0);
    assert_eq!(marks(&plain.select_sql), 2);
}

#[test]
fn every_reservation_filter_value_has_its_placeholder() {
    let q = ReservationListQuery {
        user_id: 5,
        page: Some(2),
        limit: Some(5),
        status: Some(String::from("scheduled")),
        start_date: Some(String::from("2024-01-01")),
        end_date: Some(String::from("2024-12-31")),
        car_type: Some(String::from("SUV")),
    };
    let plan = plan_reservation_list(&q);
    assert_eq!(plan.params.len(), 5);
    assert_eq!(marks(&plan.count_sql), plan.params.len());
    assert_eq!(marks(&plan.select_sql), plan.params.len() + 2);
}

#[test]
fn a_failed_count_is_reported_before_a_failed_page() {
    let both: CarListOutcome<u8> = car_list_outcome(Err("count down".into()), Err("page down".into()));
    assert!(matches!(both, CarListOutcome::CountFailed(e) if e == "count down"));
    let page: CarListOutcome<u8> = car_list_outcome(Ok(3), Err("page down".into()));
    assert!(matches!(page, CarListOutcome::PageFailed(e) if e == "page down"));
    match car_list_outcome(Ok(3), Ok(vec![1u8, 2])) {
        CarListOutcome::Listed(total, cars) => {
            assert_eq!(total, 3);
            assert_eq!(cars, vec![1, 2]);
        },
        _ => panic!(),
    }
}

#[test]
fn reservation_info_is_looked_up_by_reservation_transaction_and_caller() {
    let q = ReservationQuery { reservation_id: "RSV-1-2".into(), payment_id: "TXN-9".into() };
    let plan = plan_reservation_info(&q, 4);
    assert_eq!(plan.reservation_id, "RSV-1-2");
    assert_eq!(plan.transaction_id, "TXN-9");
    assert_eq!(plan.user_id, 4);
    assert_eq!(marks(&plan.sql), 3);
    assert!(plan.sql.contains("WHERE r.reservation_id = ? AND p.transaction_id = ? AND r.user_id = ?"));
    assert_eq!(reservation_info_answer::<u8>(Ok(Some(7))), Ok(7));
    assert_eq!(reservation_info_answer::<u8>(Ok(None)), Err(HttpStatus::NotFound));
    assert_eq!(reservation_info_answer::<u8>(Err("down".into())), Err(HttpStatus::InternalServerError));
}
