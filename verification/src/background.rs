//! The periodic sweeps over reservations: starting rentals that are due,
//! withdrawing requests the host never confirmed, and marking late returns
//! overdue. Each sweep selects the reservations concerned, then changes each
//! of them, then changes each of their log entries.

use vstd::prelude::*;
use crate::numtext::{decimal_digits, u64_to_text};
use crate::text::occurs_in;

verus! {

/// The three sweeps.
#[derive(Clone, Copy, Debug, PartialEq, Eq, Structural)]
pub enum Sweep {
    /// Scheduled reservations whose rental time has passed go in use.
    StartDueRentals,
    /// Pending reservations whose rental time has passed are withdrawn.
    CancelUnconfirmed,
    /// Scheduled or in-use reservations whose return time has passed go overdue.
    MarkOverdue,
}

/// One statement of a sweep, bound to one reservation's identifier.
pub struct SweepStatement {
    pub sql: String,
    pub reservation_id: String,
}

/// The statement that selects the reservations a sweep concerns (bound to
/// the current time).
pub open spec fn selection_sql(kind: Sweep) -> Seq<char> {
    match kind {
        Sweep::StartDueRentals => "SELECT reservation_id FROM reservation\n        WHERE rental_date < ?\n        AND reservation_status = 'scheduled'"@,
        Sweep::CancelUnconfirmed => "SELECT reservation_id FROM reservation\n        WHERE rental_date < ?\n        AND reservation_status = 'pending'"@,
        Sweep::MarkOverdue => "SELECT reservation_id FROM reservation \n        WHERE return_date < ? \n        AND reservation_status IN ('scheduled', 'in_use')"@,
    }
}

/// The statement that changes one reservation.
pub open spec fn reservation_change_sql(kind: Sweep) -> Seq<char> {
    match kind {
        Sweep::StartDueRentals => "UPDATE reservation\n            SET reservation_status = 'in_use'\n            WHERE reservation_id = ?"@,
        Sweep::CancelUnconfirmed => "DELETE FROM reservation\n            WHERE reservation_id = ?"@,
        Sweep::MarkOverdue => "UPDATE reservation\n            SET reservation_status = 'overdue'\n            WHERE reservation_id = ?\n            AND reservation_status IN ('scheduled', 'in_use')"@,
    }
}

/// The statement that changes one reservation's log entries.
pub open spec fn log_change_sql(kind: Sweep) -> Seq<char> {
    match kind {
        Sweep::StartDueRentals => "UPDATE reservation_log\n            SET reservation_status = 'in_use'\n            WHERE reservation_id = ?"@,
        Sweep::CancelUnconfirmed => "UPDATE reservation_log\n            SET reservation_status = 'canceled'\n            WHERE reservation_id = ?"@,
        Sweep::MarkOverdue => "UPDATE reservation_log\n            SET reservation_status = 'overdue'\n            WHERE reservation_id = ?\n            AND reservation_status IN ('scheduled', 'in_use')"@,
    }
}

/// Writes the statement that selects the reservations a sweep concerns.
pub fn selection_text(kind: Sweep) -> (res: String)
    ensures
        res@ == selection_sql(kind),
{
    match kind {
        Sweep::StartDueRentals => String::from_str("SELECT reservation_id FROM reservation\n        WHERE rental_date < ?\n        AND reservation_status = 'scheduled'"),
        Sweep::CancelUnconfirmed => String::from_str("SELECT reservation_id FROM reservation\n        WHERE rental_date < ?\n        AND reservation_status = 'pending'"),
        Sweep::MarkOverdue => String::from_str("SELECT reservation_id FROM reservation \n        WHERE return_date < ? \n        AND reservation_status IN ('scheduled', 'in_use')"),
    }
}

fn reservation_change_text(kind: Sweep) -> (res: String)
    ensures
        res@ == reservation_change_sql(kind),
{
    match kind {
        Sweep::StartDueRentals => String::from_str("UPDATE reservation\n            SET reservation_status = 'in_use'\n            WHERE reservation_id = ?"),
        Sweep::CancelUnconfirmed => String::from_str("DELETE FROM reservation\n            WHERE reservation_id = ?"),
        Sweep::MarkOverdue => String::from_str("UPDATE reservation\n            SET reservation_status = 'overdue'\n            WHERE reservation_id = ?\n            AND reservation_status IN ('scheduled', 'in_use')"),
    }
}

fn log_change_text(kind: Sweep) -> (res: String)
    ensures
        res@ == log_change_sql(kind),
{
    match kind {
        Sweep::StartDueRentals => String::from_str("UPDATE reservation_log\n            SET reservation_status = 'in_use'\n            WHERE reservation_id = ?"),
        Sweep::CancelUnconfirmed => String::from_str("UPDATE reservation_log\n            SET reservation_status = 'canceled'\n            WHERE reservation_id = ?"),
        Sweep::MarkOverdue => String::from_str("UPDATE reservation_log\n            SET reservation_status = 'overdue'\n            WHERE reservation_id = ?\n            AND reservation_status IN ('scheduled', 'in_use')"),
    }
}

/// The statements of a sweep over the selected reservations, to be run in
/// order until one fails: first each reservation is changed, in the order
/// selected, then each one's log entries, in the same order.
pub fn sweep_statements(kind: Sweep, selected: &Vec<String>) -> (res: Vec<SweepStatement>)
    requires
        selected@.len() * 2 <= usize::MAX,
    ensures
        res@.len() == 2 * selected@.len(),
        forall|i: int| 0 <= i < selected@.len() ==> {
            &&& (#[trigger] res@[i]).sql@ == reservation_change_sql(kind)
            &&& res@[i].reservation_id@ == selected@[i]@
        },
        forall|i: int| 0 <= i < selected@.len() ==> {
            &&& (#[trigger] res@[selected@.len() + i]).sql@ == log_change_sql(kind)
            &&& res@[selected@.len() + i].reservation_id@ == selected@[i]@
        },
{
    let n = selected.len();
    let mut out: Vec<SweepStatement> = Vec::new();
    let mut i: usize = 0;
    while i < n
        invariant
            n == selected@.len(),
            i <= n,
            out@.len() == i,
            forall|j: int| 0 <= j < i ==> {
                &&& (#[trigger] out@[j]).sql@ == reservation_change_sql(kind)
                &&& out@[j].reservation_id@ == selected@[j]@
            },
        decreases n - i,
    {
        out.push(SweepStatement { sql: reservation_change_text(kind), reservation_id: selected[i].clone() });
        i = i + 1;
    }
    let mut k: usize = 0;
    while k < n
        invariant
            n == selected@.len(),
            n * 2 <= usize::MAX,
            k <= n,
            out@.len() == n + k,
            forall|j: int| 0 <= j < n ==> {
                &&& (#[trigger] out@[j]).sql@ == reservation_change_sql(kind)
                &&& out@[j].reservation_id@ == selected@[j]@
            },
            forall|j: int| 0 <= j < k ==> {
                &&& (#[trigger] out@[n + j]).sql@ == log_change_sql(kind)
                &&& out@[n + j].reservation_id@ == selected@[j]@
            },
        decreases n - k,
    {
        out.push(SweepStatement { sql: log_change_text(kind), reservation_id: selected[k].clone() });
        k = k + 1;
    }
    out
}

/// The line a sweep reports: how many reservations it changed, and when.
pub open spec fn sweep_report_of(kind: Sweep, count: nat, at: Seq<char>) -> Seq<char> {
    match kind {
        Sweep::StartDueRentals => "Started "@ + decimal_digits(count) + " rentals at "@ + at,
        Sweep::CancelUnconfirmed => "Canceled "@ + decimal_digits(count) + " rentals at "@ + at,
        Sweep::MarkOverdue => "Updated "@ + decimal_digits(count) + " overdue reservations at "@ + at,
    }
}

/// Writes the line a sweep reports.
pub fn sweep_report(kind: Sweep, count: u64, at: &str) -> (res: String)
    ensures
        res@ == sweep_report_of(kind, count as nat, at@),
{
    let n = u64_to_text(count);
    match kind {
        Sweep::StartDueRentals => String::from_str("Started ").concat(n.as_str()).concat(" rentals at ").concat(at),
        Sweep::CancelUnconfirmed => String::from_str("Canceled ").concat(n.as_str()).concat(" rentals at ").concat(at),
        Sweep::MarkOverdue => String::from_str("Updated ").concat(n.as_str()).concat(" overdue reservations at ").concat(at),
    }
}

/// A sweep that updates reservations makes the same change to a reservation
/// as to its log entries: the two statements differ only in the table they
/// update.
pub proof fn law_sweep_changes_agree(kind: Sweep)
    requires
        kind != Sweep::CancelUnconfirmed,
    ensures
        reservation_change_sql(kind).take(18) == "UPDATE reservation"@,
        log_change_sql(kind).take(22) == "UPDATE reservation_log"@,
        reservation_change_sql(kind).skip(18) == log_change_sql(kind).skip(22),
{
    reveal_strlit("UPDATE reservation");
    reveal_strlit("UPDATE reservation_log");
    reveal_strlit("UPDATE reservation\n            SET reservation_status = 'in_use'\n            WHERE reservation_id = ?");
    reveal_strlit("UPDATE reservation_log\n            SET reservation_status = 'in_use'\n            WHERE reservation_id = ?");
    reveal_strlit("UPDATE reservation\n            SET reservation_status = 'overdue'\n            WHERE reservation_id = ?\n            AND reservation_status IN ('scheduled', 'in_use')");
    reveal_strlit("UPDATE reservation_log\n            SET reservation_status = 'overdue'\n            WHERE reservation_id = ?\n            AND reservation_status IN ('scheduled', 'in_use')");
    assert(reservation_change_sql(kind).take(18) =~= "UPDATE reservation"@);
    assert(log_change_sql(kind).take(22) =~= "UPDATE reservation_log"@);
    assert(reservation_change_sql(kind).skip(18) =~= log_change_sql(kind).skip(22));
}

/// Starting a due rental puts it in use: the reservation and its log
/// entries get the status `in_use`, which is among the statuses that the
/// overdue sweep then selects.
pub proof fn law_started_rentals_in_use()
    ensures
        occurs_in("reservation_status = 'in_use'"@, reservation_change_sql(Sweep::StartDueRentals)),
        occurs_in("reservation_status = 'in_use'"@, log_change_sql(Sweep::StartDueRentals)),
        occurs_in("'in_use'"@, selection_sql(Sweep::MarkOverdue)),
{
    reveal_strlit("reservation_status = 'in_use'");
    reveal_strlit("'in_use'");
    reveal_strlit("UPDATE reservation\n            SET reservation_status = 'in_use'\n            WHERE reservation_id = ?");
    reveal_strlit("UPDATE reservation_log\n            SET reservation_status = 'in_use'\n            WHERE reservation_id = ?");
    reveal_strlit("SELECT reservation_id FROM reservation \n        WHERE return_date < ? \n        AND reservation_status IN ('scheduled', 'in_use')");
    let set = "reservation_status = 'in_use'"@;
    let status = "'in_use'"@;
    assert(reservation_change_sql(Sweep::StartDueRentals).subrange(35int, 35int + set.len()) =~= set);
    assert(log_change_sql(Sweep::StartDueRentals).subrange(39int, 39int + set.len()) =~= set);
    assert(selection_sql(Sweep::MarkOverdue).subrange(119int, 119int + status.len()) =~= status);
}

} // verus!
