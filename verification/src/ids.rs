//! Reservation and transaction identifiers.

use vstd::prelude::*;
use rand::rngs::StdRng;
use rand::RngCore;
use crate::numtext::{decimal_digits, signed_decimal, u64_to_text, i64_to_text, is_ascii_digit, lemma_signed_decimal_shape, lemma_signed_decimal_injective, lemma_decimal_digits_injective};

verus! {

#[verifier::external_type_specification]
#[verifier::external_body]
pub struct ExStdRng(StdRng);

/// The identifier of a reservation made at `timestamp` (nanoseconds since
/// the Unix epoch) with the random number `random_part`.
pub open spec fn reservation_id_of(timestamp: int, random_part: nat) -> Seq<char> {
    "RSV-"@ + signed_decimal(timestamp) + "-"@ + decimal_digits(random_part)
}

/// The identifier of a payment transaction numbered `number`.
pub open spec fn transaction_id_of(number: nat) -> Seq<char> {
    "TXN-"@ + decimal_digits(number)
}

/// Calls `RngCore::next_u32` on a `StdRng`: the next random 32-bit number.
/// Nothing is stated of the value, which depends on the generator's state.
#[verifier::external_body]
fn next_random_u32(rng: &mut StdRng) -> u32 {
    rng.next_u32()
}

/// Calls `chrono::Utc::now().timestamp_nanos_opt()`: the current time in
/// nanoseconds since the Unix epoch, or `None` outside the range of `i64`.
/// Nothing is stated of the value, which depends on the clock.
#[verifier::external_body]
fn now_timestamp_nanos() -> Option<i64> {
    chrono::Utc::now().timestamp_nanos_opt()
}

/// Writes the identifier `RSV-<timestamp>-<random_part>`.
pub fn reservation_id_text(timestamp: i64, random_part: u32) -> (res: String)
    ensures
        res@ == reservation_id_of(timestamp as int, random_part as nat),
{
    let ts = i64_to_text(timestamp);
    let rp = u64_to_text(random_part as u64);
    String::from_str("RSV-").concat(ts.as_str()).concat("-").concat(rp.as_str())
}

/// Writes the identifier `TXN-<number>`.
pub fn transaction_id_text(number: u32) -> (res: String)
    ensures
        res@ == transaction_id_of(number as nat),
{
    let digits = u64_to_text(number as u64);
    String::from_str("TXN-").concat(digits.as_str())
}

/// Makes a fresh reservation identifier from the clock (0 where it cannot be
/// read as nanoseconds) and the next number of `rng`.
pub fn generate_reservation_id(rng: &mut StdRng) -> (res: String)
    ensures
        exists|timestamp: i64, random_part: u32|
            res@ == reservation_id_of(timestamp as int, random_part as nat),
{
    let timestamp = match now_timestamp_nanos() {
        Some(t) => t,
        None => 0,
    };
    let random_part = next_random_u32(rng);
    reservation_id_text(timestamp, random_part)
}


/// A reservation identifier determines the time and the random number it
/// was made from: different pairs give different identifiers.
pub proof fn law_reservation_id_determines_parts(t1: int, r1: nat, t2: int, r2: nat)
    requires
        reservation_id_of(t1, r1) == reservation_id_of(t2, r2),
    ensures
        t1 == t2,
        r1 == r2,
{
    reveal_strlit("RSV-");
    reveal_strlit("-");
    let a1 = signed_decimal(t1);
    let a2 = signed_decimal(t2);
    let x1 = a1 + "-"@ + decimal_digits(r1);
    let x2 = a2 + "-"@ + decimal_digits(r2);
    let id = reservation_id_of(t1, r1);
    assert(id =~= "RSV-"@ + x1);
    assert(reservation_id_of(t2, r2) =~= "RSV-"@ + x2);
    assert(x1 =~= id.subrange(4, id.len() as int));
    assert(x2 =~= id.subrange(4, id.len() as int));
    lemma_signed_decimal_shape(t1);
    lemma_signed_decimal_shape(t2);
    assert(!is_ascii_digit('-'));
    if a1.len() < a2.len() {
        assert(x1[a1.len() as int] == '-');
        assert(x2[a1.len() as int] == a2[a1.len() as int]);
        assert(is_ascii_digit(a2[a1.len() as int]));
    } else if a2.len() < a1.len() {
        assert(x2[a2.len() as int] == '-');
        assert(x1[a2.len() as int] == a1[a2.len() as int]);
        assert(is_ascii_digit(a1[a2.len() as int]));
    }
    assert(a1.len() == a2.len());
    assert(a1 =~= x1.subrange(0, a1.len() as int));
    assert(a2 =~= x2.subrange(0, a2.len() as int));
    assert(decimal_digits(r1) =~= x1.subrange(a1.len() as int + 1, x1.len() as int));
    assert(decimal_digits(r2) =~= x2.subrange(a2.len() as int + 1, x2.len() as int));
    lemma_signed_decimal_injective(t1, t2);
    lemma_decimal_digits_injective(r1, r2);
}

/// A transaction identifier determines the number it was made from.
pub proof fn law_transaction_id_determines_number(n1: nat, n2: nat)
    requires
        transaction_id_of(n1) == transaction_id_of(n2),
    ensures
        n1 == n2,
{
    reveal_strlit("TXN-");
    let id = transaction_id_of(n1);
    assert(decimal_digits(n1) =~= id.subrange(4, id.len() as int));
    assert(decimal_digits(n2) =~= transaction_id_of(n2).subrange(4, id.len() as int));
    lemma_decimal_digits_injective(n1, n2);
}

} // verus!
