use server::accounts::{
    hash_password, login_answer, logout, mypage_answer, signup_after_lookup, signup_answer, verify_password,
    CreateUserRequest, LoginRequest, SignupStep, User, UserWithPassword,
};
use server::background::{selection_text, sweep_report, sweep_statements, Sweep};
use server::http::HttpStatus;

fn stored(password_hash: &str) -> UserWithPassword {
    UserWithPassword {
        id: 1,
        name: "kim".into(),
        email: "kim@example.com".into(),
        password: password_hash.into(),
        role: "user".into(),
    }
}

#[test]
fn hashed_passwords_verify() {
    let h = hash_password("secret").unwrap();
    assert!(h.starts_with("$2b$12$"));
    assert_eq!(h.chars().count(), 60);
    assert_ne!(h, "secret");
    assert!(verify_password("secret", &h));
    assert!(!verify_password("Secret", &h));
    assert!(!verify_password("secret", "not a hash"));
}

#[test]
fn sign_up_then_log_in() {
    let signup = CreateUserRequest { email: "lee@example.com".into(), password: "pw1234".into() };
    let hash = match signup_after_lookup(&signup, Ok(false)) {
        SignupStep::CreateUser { email, password_hash } => {
            assert_eq!(email, "lee@example.com");
            password_hash
        },
        _ => panic!("expected the user to be written"),
    };
    let login = LoginRequest { email: "lee@example.com".into(), password: "pw1234".into() };
    let r = login_answer(&login, Ok(Some(stored(&hash))));
    assert_eq!((r.status.as_str(), r.message.as_str()), ("success", "Login successful"));
    let wrong = LoginRequest { email: "lee@example.com".into(), password: "nope".into() };
    let r = login_answer(&wrong, Ok(Some(stored(&hash))));
    assert_eq!((r.status.as_str(), r.message.as_str()), ("error", "Invalid credentials"));
}

#[test]
fn sign_up_refusals() {
    let signup = CreateUserRequest { email: "a@b.c".into(), password: "x".into() };
    match signup_after_lookup(&signup, Ok(true)) {
        SignupStep::Respond(r) => assert_eq!((r.status.as_str(), r.message.as_str()), ("error", "Email already exists")),
        _ => panic!(),
    }
    match signup_after_lookup(&signup, Err("db down".into())) {
        SignupStep::Respond(r) => assert_eq!(r.message, "Failed to check email: db down"),
        _ => panic!(),
    }
    let r = signup_answer(Ok(()));
    assert_eq!((r.status.as_str(), r.message.as_str(), r.data), ("success", "User created successfully", None));
    let r = signup_answer(Err("dup".into()));
    assert_eq!(r.message, "Failed to create user: dup");
}

#[test]
fn log_in_refusals() {
    let login = LoginRequest { email: "a@b.c".into(), password: "x".into() };
    let r = login_answer(&login, Ok(None));
    assert_eq!((r.status.as_str(), r.message.as_str()), ("error", "User not found"));
    let r = login_answer(&login, Err("db".into()));
    assert_eq!(r.message, "Failed to check email: db");
    let r = logout();
    assert_eq!((r.status.as_str(), r.message.as_str()), ("success", "Logout successful"));
}

#[test]
fn own_page() {
    let u = User { id: 3, name: "park".into(), email: "p@x".into(), role: "host".into() };
    let shown = mypage_answer(Ok(Some(u))).ok().unwrap();
    assert_eq!((shown.id, shown.role.as_str()), (3, "host"));
    let f = mypage_answer(Ok(None)).err().unwrap();
    assert_eq!((f.status, f.message.as_str()), (HttpStatus::NotFound, "User not found"));
    let f = mypage_answer(Err("x".into())).err().unwrap();
    assert_eq!((f.status, f.message.as_str()), (HttpStatus::InternalServerError, "Database error"));
}

#[test]
fn sweeps_change_reservations_then_logs() {
    let ids: Vec<String> = vec!["RSV-1-1".into(), "RSV-2-2".into()];
    let steps = sweep_statements(Sweep::MarkOverdue, &ids);
    assert_eq!(steps.len(), 4);
    assert!(steps[0].sql.starts_with("UPDATE reservation\n"));
    assert!(steps[2].sql.starts_with("UPDATE reservation_log\n"));
    let order: Vec<&str> = steps.iter().map(|s| s.reservation_id.as_str()).collect();
    assert_eq!(order, vec!["RSV-1-1", "RSV-2-2", "RSV-1-1", "RSV-2-2"]);
    let cancel = sweep_statements(Sweep::CancelUnconfirmed, &ids);
    assert_eq!(cancel[0].sql, "DELETE FROM reservation\n            WHERE reservation_id = ?");
    assert!(cancel[3].sql.contains("'canceled'"));
    assert!(sweep_statements(Sweep::StartDueRentals, &Vec::new()).is_empty());
}

#[test]
fn sweep_selection_and_report() {
    assert!(selection_text(Sweep::StartDueRentals).contains("reservation_status = 'scheduled'"));
    assert!(selection_text(Sweep::CancelUnconfirmed).contains("reservation_status = 'pending'"));
    assert!(selection_text(Sweep::MarkOverdue).contains("return_date < ?"));
    assert_eq!(sweep_report(Sweep::StartDueRentals, 3, "2025-06-01 10:00:00"), "Started 3 rentals at 2025-06-01 10:00:00");
    assert_eq!(sweep_report(Sweep::CancelUnconfirmed, 0, "t"), "Canceled 0 rentals at t");
    assert_eq!(sweep_report(Sweep::MarkOverdue, 12, "t"), "Updated 12 overdue reservations at t");
}
