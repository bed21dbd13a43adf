//! Simulated card payments: checking the card details, drawing the outcome,
//! and recording it.

use vstd::prelude::*;
use vstd::utf8::encode_utf8;
use rand::Rng;
use rand_chacha::ChaCha8Rng;
use crate::http::HttpStatus;
use crate::ids::{transaction_id_text, transaction_id_of};
use crate::numtext::{signed_decimal, i64_to_text};

verus! {

#[verifier::external_type_specification]
#[verifier::external_body]
pub struct ExChaCha8Rng(ChaCha8Rng);

/// A payment request.
pub struct PaymentInfo {
    pub card_number: String,
    /// Month and year, `MM/YY`.
    pub expiry_date: String,
    pub cvc: String,
    pub cardholder_name: String,
    /// The reservation paid for.
    pub reservation_id: i32,
    pub total_amount: i32,
    pub payment_method: String,
    /// What is paid: `reservation`, `overdue`, and so on.
    pub payment_type: String,
}

/// The answer to a payment request.
pub struct PaymentResult {
    pub success: bool,
    pub message: String,
    pub transaction_id: Option<String>,
}

/// The length of a text in bytes of UTF-8, as `str::len` counts it.
pub open spec fn byte_len(s: Seq<char>) -> usize {
    encode_utf8(s).len() as usize
}

/// Whether the card details pass the basic checks: a card number of at
/// least 16 bytes, an expiry date of exactly 5, a code of at least 3, a
/// holder's name, a positive amount, a method and a type.
pub open spec fn payment_details_valid(p: PaymentInfo) -> bool {
    &&& byte_len(p.card_number@) >= 16
    &&& byte_len(p.expiry_date@) == 5
    &&& byte_len(p.cvc@) >= 3
    &&& p.cardholder_name@.len() > 0
    &&& p.total_amount > 0
    &&& p.payment_method@.len() > 0
    &&& p.payment_type@.len() > 0
}

/// Whether the card details pass the basic checks.
pub fn payment_details_ok(p: &PaymentInfo) -> (res: bool)
    ensures
        res == payment_details_valid(*p),
{
    p.card_number.as_str().len() >= 16 && p.expiry_date.as_str().len() == 5
        && p.cvc.as_str().len() >= 3 && !p.cardholder_name.as_str().is_empty()
        && p.total_amount > 0 && !p.payment_method.as_str().is_empty()
        && !p.payment_type.as_str().is_empty()
}

/// Calls `Rng::random_ratio(numerator, denominator)` on the payment
/// generator: `true` with that probability. It panics where the denominator
/// is zero or below the numerator, so those inputs are left out. Nothing is
/// stated of the value, which is drawn at random.
#[verifier::external_body]
fn draw_ratio(rng: &mut ChaCha8Rng, numerator: u32, denominator: u32) -> bool
    requires
        0 < denominator,
        numerator <= denominator,
{
    rng.random_ratio(numerator, denominator)
}

/// Calls `Rng::random::<u32>()` on the payment generator. Nothing is stated
/// of the value, which is drawn at random.
#[verifier::external_body]
fn draw_u32(rng: &mut ChaCha8Rng) -> u32 {
    rng.random::<u32>()
}

/// Where the payment stands.
#[derive(Clone, Copy, PartialEq, Eq, Structural)]
pub enum PaymentStage {
    Connecting,
    RecordingCompleted,
    MarkingReservation,
    RecordingFailed,
    Finished,
}

/// What the store reported for the last action; errors carry their text.
pub enum PaymentEvent {
    Connected(Result<(), String>),
    /// The number of payment rows written for a completed payment.
    CompletedRecorded(Result<u64, String>),
    /// The reservation was (or was not) marked completed.
    ReservationMarked(Result<(), String>),
    /// Whether the failed payment was written; its outcome does not matter.
    FailedRecorded(Result<(), String>),
}

/// What a payment writes besides its outcome: the reservation paid for, the
/// amount, the method, and what is paid.
pub struct PaymentRecord {
    pub reservation_id: i32,
    pub amount: i32,
    pub method: String,
    pub payment_type: String,
}

/// The fields of a record, as plain values.
pub open spec fn record_view(r: PaymentRecord) -> (i32, i32, Seq<char>, Seq<char>) {
    (r.reservation_id, r.amount, r.method@, r.payment_type@)
}

/// The record that a payment request asks to be written.
pub open spec fn record_of(info: PaymentInfo) -> (i32, i32, Seq<char>, Seq<char>) {
    (info.reservation_id, info.total_amount, info.payment_method@, info.payment_type@)
}

/// What the console shows of a card: its characters past the twelfth.
pub open spec fn card_tail(card_number: Seq<char>) -> Seq<char> {
    if card_number.len() > 12 { card_number.subrange(12, card_number.len() as int) } else { Seq::empty() }
}

/// The console line that logs a payment with drawn outcome `successful`.
pub open spec fn payment_log_line(info: PaymentInfo, successful: bool) -> Seq<char> {
    "가상 결제 처리: 카드 끝 4자리 ****-****-****-"@ + card_tail(info.card_number@) + ", 예약 ID "@
        + signed_decimal(info.reservation_id as int) + ", 금액 "@ + signed_decimal(info.total_amount as int)
        + "원, 방법 "@ + info.payment_method@ + ", 유형 "@ + info.payment_type@ + ", 성공: "@
        + (if successful { "true"@ } else { "false"@ })
}

/// What the store is to do next.
pub enum PaymentAction {
    /// Print `log_line`, then acquire a connection.
    Connect { successful: bool, transaction_id: String, log_line: String },
    /// Write the payment `record` with this transaction identifier and this
    /// status.
    RecordCompleted { record: PaymentRecord, transaction_id: String, status: String },
    /// Set the status of reservation `reservation_id` to `status`.
    MarkReservationCompleted { reservation_id: i32, status: String },
    /// Write the payment `record`, without transaction identifier, with this
    /// status.
    RecordFailed { record: PaymentRecord, status: String },
    /// Answer: a result, or a failure status.
    Respond(Result<PaymentResult, HttpStatus>),
}

/// The answer that refuses malformed card details.
pub open spec fn rejected_answer(r: PaymentResult) -> bool {
    !r.success && r.message@ == "결제 정보가 올바르지 않습니다."@ && r.transaction_id is None
}

/// The answer to a completed and recorded payment.
pub open spec fn completed_answer(r: PaymentResult, transaction_id: Seq<char>) -> bool {
    r.success && r.message@ == "결제가 완료되었습니다."@ && (r.transaction_id matches Some(t)
        && t@ == transaction_id)
}

/// The answer to a payment that went through but was not recorded.
pub open spec fn unrecorded_answer(r: PaymentResult, transaction_id: Seq<char>) -> bool {
    !r.success && r.message@ == "결제는 성공했지만, 결제 정보를 저장하는 데 실패했습니다."@
        && (r.transaction_id matches Some(t) && t@ == transaction_id)
}

/// The answer to a declined payment.
pub open spec fn declined_answer(r: PaymentResult) -> bool {
    !r.success && r.message@ == "결제에 실패했습니다. 카드 정보를 확인하거나 다른 결제 수단을 이용해주세요."@
        && r.transaction_id is None
}

/// The state of one payment.
pub struct Payment {
    stage: PaymentStage,
    successful: bool,
    transaction_id: String,
    overdue: bool,
    valid: bool,
    recorded: bool,
    record: PaymentRecord,
}

/// Copies a record field by field.
fn copy_record(r: &PaymentRecord) -> (res: PaymentRecord)
    ensures
        record_view(res) == record_view(*r),
{
    PaymentRecord {
        reservation_id: r.reservation_id,
        amount: r.amount,
        method: r.method.clone(),
        payment_type: r.payment_type.clone(),
    }
}

/// Writes the console line that logs a payment.
fn payment_log_text(info: &PaymentInfo, successful: bool) -> (res: String)
    ensures
        res@ == payment_log_line(*info, successful),
{
    let n = info.card_number.as_str().unicode_len();
    let tail = if n > 12 { info.card_number.as_str().substring_char(12, n) } else { "" };
    proof {
        reveal_strlit("");
    }
    let id = i64_to_text(info.reservation_id as i64);
    let amount = i64_to_text(info.total_amount as i64);
    let outcome = if successful { "true" } else { "false" };
    String::from_str("가상 결제 처리: 카드 끝 4자리 ****-****-****-").concat(tail).concat(", 예약 ID ").concat(id.as_str()).concat(
        ", 금액 ",
    ).concat(amount.as_str()).concat("원, 방법 ").concat(info.payment_method.as_str()).concat(", 유형 ").concat(
        info.payment_type.as_str(),
    ).concat(", 성공: ").concat(outcome)
}

impl Payment {
    #[verifier::type_invariant]
    spec fn well_formed(self) -> bool {
        &&& self.valid
        &&& (self.stage == PaymentStage::RecordingCompleted || self.stage == PaymentStage::MarkingReservation)
            ==> self.successful
        &&& self.stage == PaymentStage::MarkingReservation ==> self.recorded && self.overdue
        &&& exists|n: u32| self.transaction_id@ == transaction_id_of(n as nat)
    }

    pub closed spec fn stage(self) -> PaymentStage {
        self.stage
    }

    /// Whether the drawn outcome was a success.
    pub closed spec fn successful(self) -> bool {
        self.successful
    }

    /// The transaction identifier drawn.
    pub closed spec fn transaction_id(self) -> Seq<char> {
        self.transaction_id@
    }

    /// Whether the payment is for a late fee (`overdue`).
    pub closed spec fn overdue(self) -> bool {
        self.overdue
    }

    /// Whether the card details passed the checks.
    pub closed spec fn valid(self) -> bool {
        self.valid
    }

    /// Whether the completed payment was written.
    pub closed spec fn recorded(self) -> bool {
        self.recorded
    }

    /// The record the payment writes.
    pub closed spec fn record(self) -> (i32, i32, Seq<char>, Seq<char>) {
        record_view(self.record)
    }

    pub open spec fn accepts(self, event: PaymentEvent) -> bool {
        match self.stage() {
            PaymentStage::Connecting => event is Connected,
            PaymentStage::RecordingCompleted => event is CompletedRecorded,
            PaymentStage::MarkingReservation => event is ReservationMarked,
            PaymentStage::RecordingFailed => event is FailedRecorded,
            PaymentStage::Finished => false,
        }
    }

    /// What starting a payment for `info` may give: a refusal exactly where
    /// the details fail the checks; otherwise a payment about to connect,
    /// with a drawn outcome and transaction number.
    pub open spec fn started_as(info: PaymentInfo, res: Result<(Payment, PaymentAction), PaymentResult>) -> bool {
        &&& res is Err <==> !payment_details_valid(info)
        &&& res matches Err(r) ==> rejected_answer(r)
        &&& res matches Ok((p, action)) ==> {
            &&& p.stage() == PaymentStage::Connecting
            &&& p.valid()
            &&& p.overdue() == (info.payment_type@ == "overdue"@)
            &&& p.record() == record_of(info)
            &&& action matches PaymentAction::Connect { successful, transaction_id, log_line }
            &&& successful == p.successful() && transaction_id@ == p.transaction_id()
            &&& log_line@ == payment_log_line(info, successful)
            &&& exists|n: u32| p.transaction_id() == transaction_id_of(n as nat)
        }
    }

    /// Starts a payment: malformed details are refused at once, and nothing
    /// is drawn from `rng`; otherwise the outcome (success four times in
    /// five) and then a transaction number are drawn from `rng`.
    pub fn start(info: &PaymentInfo, rng: &mut ChaCha8Rng) -> (res: Result<(Payment, PaymentAction), PaymentResult>)
        ensures
            Self::started_as(*info, res),
            res is Err ==> *final(rng) == *old(rng),
    {
        if !payment_details_ok(info) {
            return Err(PaymentResult {
                success: false,
                message: String::from_str("결제 정보가 올바르지 않습니다."),
                transaction_id: None,
            });
        }
        let successful = draw_ratio(rng, 4, 5);
        let number = draw_u32(rng);
        let transaction_id = transaction_id_text(number);
        let overdue = info.payment_type == String::from_str("overdue");
        let sent = transaction_id.clone();
        let log_line = payment_log_text(info, successful);
        let record = PaymentRecord {
            reservation_id: info.reservation_id,
            amount: info.total_amount,
            method: info.payment_method.clone(),
            payment_type: info.payment_type.clone(),
        };
        Ok((
            Payment { stage: PaymentStage::Connecting, successful, transaction_id, overdue, valid: true, recorded: false, record },
            PaymentAction::Connect { successful, transaction_id: sent, log_line },
        ))
    }

    pub fn expects(&self, event: &PaymentEvent) -> (res: bool)
        ensures
            res == self.accepts(*event),
    {
        match self.stage {
            PaymentStage::Connecting => matches!(event, PaymentEvent::Connected(_)),
            PaymentStage::RecordingCompleted => matches!(event, PaymentEvent::CompletedRecorded(_)),
            PaymentStage::MarkingReservation => matches!(event, PaymentEvent::ReservationMarked(_)),
            PaymentStage::RecordingFailed => matches!(event, PaymentEvent::FailedRecorded(_)),
            PaymentStage::Finished => false,
        }
    }

    /// Takes the store's report on the last action and decides the next one.
    /// A payment is reported successful only where the details were valid,
    /// the drawn outcome was a success and the payment was written (and, for
    /// a late fee, the reservation was marked completed).
    pub fn step(self, event: PaymentEvent) -> (res: (Payment, PaymentAction))
        requires
            self.accepts(event),
        ensures
            ({
                let (next, action) = res;
                match event {
                    PaymentEvent::Connected(Err(_)) => next.stage() == PaymentStage::Finished
                        && action matches PaymentAction::Respond(Err(HttpStatus::InternalServerError)),
                    PaymentEvent::Connected(Ok(())) => if self.successful() {
                        next.stage() == PaymentStage::RecordingCompleted
                            && (action matches PaymentAction::RecordCompleted { record, transaction_id, status }
                                && record_view(record) == self.record()
                                && transaction_id@ == self.transaction_id() && status@ == "completed"@)
                    } else {
                        next.stage() == PaymentStage::RecordingFailed
                            && (action matches PaymentAction::RecordFailed { record, status }
                                && record_view(record) == self.record() && status@ == "failed"@)
                    },
                    PaymentEvent::CompletedRecorded(Err(_)) => next.stage() == PaymentStage::Finished
                        && action matches PaymentAction::Respond(Err(HttpStatus::InternalServerError)),
                    PaymentEvent::CompletedRecorded(Ok(rows)) => if rows == 0 {
                        next.stage() == PaymentStage::Finished
                            && (action matches PaymentAction::Respond(Ok(r))
                                && unrecorded_answer(r, self.transaction_id()))
                    } else if self.overdue() {
                        next.stage() == PaymentStage::MarkingReservation
                            && (action matches PaymentAction::MarkReservationCompleted { reservation_id, status }
                                && reservation_id == self.record().0 && status@ == "completed"@)
                    } else {
                        next.stage() == PaymentStage::Finished
                            && (action matches PaymentAction::Respond(Ok(r))
                                && completed_answer(r, self.transaction_id()))
                    },
                    PaymentEvent::ReservationMarked(Err(_)) => next.stage() == PaymentStage::Finished
                        && action matches PaymentAction::Respond(Err(HttpStatus::InternalServerError)),
                    PaymentEvent::ReservationMarked(Ok(())) => next.stage() == PaymentStage::Finished
                        && (action matches PaymentAction::Respond(Ok(r))
                            && completed_answer(r, self.transaction_id())),
                    PaymentEvent::FailedRecorded(_) => next.stage() == PaymentStage::Finished
                        && (action matches PaymentAction::Respond(Ok(r)) && declined_answer(r)),
                }
            }),
            res.0.record() == self.record(),
            // Success is only ever reported for a valid, drawn-successful and
            // recorded payment.
            (res.1 matches PaymentAction::Respond(Ok(r)) && r.success) ==> self.valid() && self.successful()
                && (self.stage() == PaymentStage::RecordingCompleted || self.recorded()),
    {
        proof {
            use_type_invariant(&self);
        }
        let Payment { stage, successful, transaction_id, overdue, valid, recorded, record } = self;
        match event {
            PaymentEvent::Connected(Err(_)) => (
                Payment { stage: PaymentStage::Finished, successful, transaction_id, overdue, valid, recorded, record },
                PaymentAction::Respond(Err(HttpStatus::InternalServerError)),
            ),
            PaymentEvent::Connected(Ok(())) => {
                proof {
                    reveal_strlit("completed");
                    reveal_strlit("failed");
                }
                let copied = copy_record(&record);
                if successful {
                    let sent = transaction_id.clone();
                    (
                        Payment { stage: PaymentStage::RecordingCompleted, successful, transaction_id, overdue, valid, recorded, record },
                        PaymentAction::RecordCompleted { record: copied, transaction_id: sent, status: String::from_str("completed") },
                    )
                } else {
                    (
                        Payment { stage: PaymentStage::RecordingFailed, successful, transaction_id, overdue, valid, recorded, record },
                        PaymentAction::RecordFailed { record: copied, status: String::from_str("failed") },
                    )
                }
            },
            PaymentEvent::CompletedRecorded(Err(_)) => (
                Payment { stage: PaymentStage::Finished, successful, transaction_id, overdue, valid, recorded, record },
                PaymentAction::Respond(Err(HttpStatus::InternalServerError)),
            ),
            PaymentEvent::CompletedRecorded(Ok(rows)) => {
                if rows == 0 {
                    let sent = transaction_id.clone();
                    (
                        Payment { stage: PaymentStage::Finished, successful, transaction_id, overdue, valid, recorded, record },
                        PaymentAction::Respond(Ok(PaymentResult {
                            success: false,
                            message: String::from_str("결제는 성공했지만, 결제 정보를 저장하는 데 실패했습니다."),
                            transaction_id: Some(sent),
                        })),
                    )
                } else if overdue {
                    let reservation_id = record.reservation_id;
                    (
                        Payment { stage: PaymentStage::MarkingReservation, successful, transaction_id, overdue, valid, recorded: true, record },
                        PaymentAction::MarkReservationCompleted { reservation_id, status: String::from_str("completed") },
                    )
                } else {
                    let sent = transaction_id.clone();
                    (
                        Payment { stage: PaymentStage::Finished, successful, transaction_id, overdue, valid, recorded: true, record },
                        PaymentAction::Respond(Ok(PaymentResult {
                            success: true,
                            message: String::from_str("결제가 완료되었습니다."),
                            transaction_id: Some(sent),
                        })),
                    )
                }
            },
            PaymentEvent::ReservationMarked(Err(_)) => (
                Payment { stage: PaymentStage::Finished, successful, transaction_id, overdue, valid, recorded, record },
                PaymentAction::Respond(Err(HttpStatus::InternalServerError)),
            ),
            PaymentEvent::ReservationMarked(Ok(())) => {
                let sent = transaction_id.clone();
                (
                    Payment { stage: PaymentStage::Finished, successful, transaction_id, overdue, valid, recorded, record },
                    PaymentAction::Respond(Ok(PaymentResult {
                        success: true,
                        message: String::from_str("결제가 완료되었습니다."),
                        transaction_id: Some(sent),
                    })),
                )
            },
            PaymentEvent::FailedRecorded(_) => (
                Payment { stage: PaymentStage::Finished, successful, transaction_id, overdue, valid, recorded, record },
                PaymentAction::Respond(Ok(PaymentResult {
                    success: false,
                    message: String::from_str("결제에 실패했습니다. 카드 정보를 확인하거나 다른 결제 수단을 이용해주세요."),
                    transaction_id: None,
                })),
            ),
        }
    }
}

/// A payment depends on the hidden card details only through whether they
/// pass the checks: two valid requests for the same reservation, amount,
/// method and kind, whose card numbers agree past the twelfth character, are
/// started alike, with the same record to write and the same console line for
/// the same drawn outcome, whatever their expiry dates, codes, holders' names
/// and first twelve card characters. (The step contracts take the payment on
/// from its state alone.)
pub proof fn law_payment_depends_on_validity(
    p1: PaymentInfo,
    p2: PaymentInfo,
    res: Result<(Payment, PaymentAction), PaymentResult>,
)
    requires
        payment_details_valid(p1),
        payment_details_valid(p2),
        record_of(p1) == record_of(p2),
        card_tail(p1.card_number@) == card_tail(p2.card_number@),
    ensures
        Payment::started_as(p1, res) == Payment::started_as(p2, res),
{
    assert(payment_log_line(p1, true) == payment_log_line(p2, true));
    assert(payment_log_line(p1, false) == payment_log_line(p2, false));
}

} // verus!
