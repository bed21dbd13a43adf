//! Accounts: signing up, logging in and out, and a user's own page.

use vstd::prelude::*;
use crate::http::{HttpStatus, RequestFailure};

verus! {

/// A user as shown to themselves.
pub struct User {
    pub id: i32,
    pub name: String,
    pub email: String,
    pub role: String,
}

/// A user with the stored hash of their password.
pub struct UserWithPassword {
    pub id: i32,
    pub name: String,
    pub email: String,
    pub password: String,
    pub role: String,
}

/// A sign-up request.
pub struct CreateUserRequest {
    pub email: String,
    pub password: String,
}

/// A log-in request.
pub struct LoginRequest {
    pub email: String,
    pub password: String,
}

/// The answer to an account request: `success` or `error`, and a message.
pub struct ApiResponse {
    pub status: String,
    pub message: String,
    pub data: Option<String>,
}

/// What `bcrypt::verify` reports for a password and a stored hash: whether
/// they match, or `None` where the hash cannot be read.
pub uninterp spec fn bcrypt_verify_outcome(password: Seq<char>, hash: Seq<char>) -> Option<bool>;

/// Calls `bcrypt::verify(password, hash)`; the contract names its outcome,
/// which depends on the two texts alone (the hash carries its own salt and
/// cost). An error is reported as `None`.
#[verifier::external_body]
fn bcrypt_verify(password: &str, hash: &str) -> (res: Option<bool>)
    ensures
        res == bcrypt_verify_outcome(password@, hash@),
{
    match bcrypt::verify(password, hash) {
        Ok(matches) => Some(matches),
        Err(_) => None,
    }
}

/// The shape of the text `bcrypt::hash` writes at the default cost: `$2b$12$`
/// followed by 22 characters of salt and 31 of hash, 60 in all.
pub open spec fn is_bcrypt_text(s: Seq<char>) -> bool {
    s.len() == 60 && s.take(7) == "$2b$12$"@
}

/// Calls `bcrypt::hash(password, bcrypt::DEFAULT_COST)`, which draws a fresh
/// salt from the operating system; an error (only where the operating system
/// gives no randomness) is handed back as its text. What bcrypt's source shows
/// of every hash it writes is stated: it has bcrypt's shape (version `2b`,
/// cost 12, salt and hash in bcrypt's base 64), and checking the same password
/// against it succeeds.
#[verifier::external_body]
fn bcrypt_hash(password: &str) -> (res: Result<String, String>)
    ensures
        res matches Ok(h) ==> bcrypt_verify_outcome(password@, h@) == Some(true),
        res matches Ok(h) ==> is_bcrypt_text(h@),
{
    match bcrypt::hash(password, bcrypt::DEFAULT_COST) {
        Ok(h) => Ok(h),
        Err(e) => Err(e.to_string()),
    }
}

/// Whether `provided` is the password that `stored` was hashed from; a hash
/// that cannot be read matches nothing.
pub fn verify_password(provided: &str, stored: &str) -> (res: bool)
    ensures
        res == (bcrypt_verify_outcome(provided@, stored@) == Some(true)),
{
    match bcrypt_verify(provided, stored) {
        Some(b) => b,
        None => false,
    }
}

/// Hashes a new password for storing; `Err` with bcrypt's text where it
/// fails. A stored hash has bcrypt's shape and always verifies the password
/// it came from.
pub fn hash_password(password: &str) -> (res: Result<String, String>)
    ensures
        res matches Ok(h) ==> bcrypt_verify_outcome(password@, h@) == Some(true),
        res matches Ok(h) ==> is_bcrypt_text(h@),
{
    bcrypt_hash(password)
}

/// Whether a log-in with `request` is accepted for `user`: the password
/// verifies against the user's stored hash.
pub open spec fn login_accepted(request: LoginRequest, user: UserWithPassword) -> bool {
    bcrypt_verify_outcome(request.password@, user.password@) == Some(true)
}

/// Whether `step` writes the user of `request`: its email, with a text of
/// bcrypt's shape that the request's password verifies against, in place of
/// the password.
pub open spec fn signup_writes(request: CreateUserRequest, step: SignupStep) -> bool {
    step matches SignupStep::CreateUser { email, password_hash } && email@ == request.email@
        && bcrypt_verify_outcome(request.password@, password_hash@) == Some(true)
        && is_bcrypt_text(password_hash@)
}

/// A user who signed up logs in with the same password: where a sign-up
/// wrote a user and the store hands that user back, a log-in with the
/// sign-up's password is accepted.
pub proof fn law_signup_then_login(
    signup: CreateUserRequest,
    step: SignupStep,
    login: LoginRequest,
    stored: UserWithPassword,
)
    requires
        signup_writes(signup, step),
        step matches SignupStep::CreateUser { password_hash, .. } && stored.password@ == password_hash@,
        login.password@ == signup.password@,
    ensures
        login_accepted(login, stored),
{
}

/// A sign-up never stores the password itself: what it writes has bcrypt's
/// shape, so it differs from any password that has not.
pub proof fn law_signup_stores_no_plain_password(signup: CreateUserRequest, step: SignupStep)
    requires
        signup_writes(signup, step),
        !is_bcrypt_text(signup.password@),
    ensures
        step matches SignupStep::CreateUser { password_hash, .. } && password_hash@ != signup.password@,
{
}

/// An answer with status `status` and message `message`.
pub open spec fn answers(r: ApiResponse, status: Seq<char>, message: Seq<char>) -> bool {
    r.status@ == status && r.message@ == message && r.data is None
}

fn answer(status: &str, message: String) -> (res: ApiResponse)
    ensures
        answers(res, status@, message@),
{
    ApiResponse { status: String::from_str(status), message, data: None }
}

/// The answer to a log-out.
pub fn logout() -> (res: ApiResponse)
    ensures
        answers(res, "success"@, "Logout successful"@),
{
    answer("success", String::from_str("Logout successful"))
}

/// The answer to a log-in, given what the lookup of the email found: the
/// user whose stored hash the password verifies against is logged in.
pub fn login_answer(request: &LoginRequest, found: Result<Option<UserWithPassword>, String>) -> (res: ApiResponse)
    ensures
        (match found {
            Err(e) => answers(res, "error"@, "Failed to check email: "@ + e@),
            Ok(None) => answers(res, "error"@, "User not found"@),
            Ok(Some(u)) => if login_accepted(*request, u) {
                answers(res, "success"@, "Login successful"@)
            } else {
                answers(res, "error"@, "Invalid credentials"@)
            },
        }),
{
    match found {
        Err(e) => answer("error", String::from_str("Failed to check email: ").concat(e.as_str())),
        Ok(None) => answer("error", String::from_str("User not found")),
        Ok(Some(user)) => {
            if verify_password(request.password.as_str(), user.password.as_str()) {
                answer("success", String::from_str("Login successful"))
            } else {
                answer("error", String::from_str("Invalid credentials"))
            }
        },
    }
}

/// What a sign-up asks of the store after the email was looked up.
pub enum SignupStep {
    /// Write the user with this email and hashed password, then report.
    CreateUser { email: String, password_hash: String },
    /// Hashing the password failed with this text.
    HashFailed(String),
    /// Answer now.
    Respond(ApiResponse),
}

/// Decides a sign-up once the email was looked up (`Ok(true)` where a user
/// with it exists): an email in use is refused; otherwise the password is
/// hashed for storing.
pub fn signup_after_lookup(request: &CreateUserRequest, exists: Result<bool, String>) -> (res: SignupStep)
    ensures
        (match exists {
            Err(e) => res matches SignupStep::Respond(r) && answers(r, "error"@, "Failed to check email: "@ + e@),
            Ok(true) => res matches SignupStep::Respond(r) && answers(r, "error"@, "Email already exists"@),
            Ok(false) => signup_writes(*request, res) || res is HashFailed,
        }),
{
    match exists {
        Err(e) => SignupStep::Respond(answer("error", String::from_str("Failed to check email: ").concat(e.as_str()))),
        Ok(true) => SignupStep::Respond(answer("error", String::from_str("Email already exists"))),
        Ok(false) => match hash_password(request.password.as_str()) {
            Ok(h) => SignupStep::CreateUser { email: request.email.clone(), password_hash: h },
            Err(e) => SignupStep::HashFailed(e),
        },
    }
}

/// The answer to a sign-up once the user was (or was not) written.
pub fn signup_answer(created: Result<(), String>) -> (res: ApiResponse)
    ensures
        (match created {
            Ok(()) => answers(res, "success"@, "User created successfully"@),
            Err(e) => answers(res, "error"@, "Failed to create user: "@ + e@),
        }),
{
    match created {
        Ok(()) => answer("success", String::from_str("User created successfully")),
        Err(e) => answer("error", String::from_str("Failed to create user: ").concat(e.as_str())),
    }
}

/// The answer to a request for one's own page, given what the lookup found.
pub fn mypage_answer(found: Result<Option<User>, String>) -> (res: Result<User, RequestFailure>)
    ensures
        (match found {
            Err(_) => res matches Err(f) && f.status == HttpStatus::InternalServerError && f.message@ == "Database error"@,
            Ok(None) => res matches Err(f) && f.status == HttpStatus::NotFound && f.message@ == "User not found"@,
            Ok(Some(u)) => res == Ok::<User, RequestFailure>(u),
        }),
{
    match found {
        Err(_) => Err(RequestFailure { status: HttpStatus::InternalServerError, message: String::from_str("Database error") }),
        Ok(None) => Err(RequestFailure { status: HttpStatus::NotFound, message: String::from_str("User not found") }),
        Ok(Some(u)) => Ok(u),
    }
}

} // verus!
