//! The reservation calendar of a car: which days of a month are taken.

use vstd::prelude::*;
use crate::clock::{DateTimeValue, month_and_day, month_and_day_of, first_day, last_day};

verus! {

/// One reservation's period: from `rental` up to (not including) `return_at`.
#[derive(Clone, Copy, Debug, PartialEq, Eq, Structural)]
pub struct ReservedPeriod {
    pub rental: DateTimeValue,
    pub return_at: DateTimeValue,
}

/// The taken days of the month shown, in increasing order.
pub struct ReservationCalendar {
    pub reserved_days: Vec<u8>,
}

/// Day number `d` is one of the days that the period walks through: a day
/// from the rental day on whose moment at the rental's time of day comes
/// before the return.
pub open spec fn walks_through(p: ReservedPeriod, d: int) -> bool {
    p.rental.day <= d && before_return(p, d)
}

/// Day number `d` at the rental's time of day comes before the return.
pub open spec fn before_return(p: ReservedPeriod, d: int) -> bool {
    d < p.return_at.day || (d == p.return_at.day && (p.rental.seconds < p.return_at.seconds
        || (p.rental.seconds == p.return_at.seconds && p.rental.nanos < p.return_at.nanos)))
}

/// Day number `d` falls on day `v` of month `month`.
pub open spec fn date_is(d: int, month: u32, v: nat) -> bool {
    month_and_day_of(d as i32) matches Some((m, dd)) && m == month && dd as nat == v
}

/// Whether day `v` of month `month` is taken by one of the periods.
pub open spec fn day_taken(periods: Seq<ReservedPeriod>, month: u32, v: nat) -> bool {
    exists|i: int, d: int|
        0 <= i < periods.len() && #[trigger] walks_through(periods[i], d)
            && date_is(d, month, v)
}

/// A period whose dates chrono can hold and whose walk does not go past the
/// last day chrono can hold (stepping past it is where the walk fails).
pub open spec fn period_in_range(p: ReservedPeriod) -> bool {
    &&& first_day() <= p.rental.day <= last_day()
    &&& first_day() <= p.return_at.day <= last_day()
    &&& !before_return(p, last_day())
}

/// Day `v` of month `month` is among the first days, before `upto`, that
/// the walk through `p` reaches.
spec fn walk_hits(p: ReservedPeriod, month: u32, v: nat, upto: int) -> bool {
    exists|d: int|
        d < upto && #[trigger] walks_through(p, d) && date_is(d, month, v)
}

/// Day `v` of month `month` is among the days that the walk through `p`
/// reaches.
spec fn period_hits(p: ReservedPeriod, month: u32, v: nat) -> bool {
    walk_hits(p, month, v, p.return_at.day + 1)
}

/// Whether the walk through `p` goes on at day number `day`.
fn walk_continues(p: &ReservedPeriod, day: i32) -> (res: bool)
    ensures
        res == before_return(*p, day as int),
{
    day < p.return_at.day || (day == p.return_at.day && (p.rental.seconds < p.return_at.seconds
        || (p.rental.seconds == p.return_at.seconds && p.rental.nanos < p.return_at.nanos)))
}

/// Marks the days of month `month` that the walk through `p` reaches.
fn mark_period(taken: &mut Vec<bool>, p: ReservedPeriod, month: u32)
    requires
        old(taken)@.len() == 32,
        period_in_range(p),
    ensures
        final(taken)@.len() == 32,
        forall|v: int| 0 <= v < 32 ==> (#[trigger] final(taken)@[v] == (old(taken)@[v] || period_hits(p, month, v as nat))),
        forall|v: nat| period_hits(p, month, v) ==> 1 <= v <= 31,
{
    let mut day: i32 = p.rental.day;
    let ghost before = taken@;
    while walk_continues(&p, day)
        invariant
            taken@.len() == 32,
            period_in_range(p),
            p.rental.day <= day,
            day == p.rental.day || day <= p.return_at.day + 1,
            forall|d: int| p.rental.day <= d < day ==> walks_through(p, d),
            forall|v: nat| v < 32 ==> (taken@[v as int] <==> (before[v as int] || walk_hits(p, month, v, day as int))),
            forall|v: nat| walk_hits(p, month, v, day as int) ==> 1 <= v <= 31,
        decreases p.return_at.day + 1 - day,
    {
        let found = month_and_day(day);
        proof {
            assert forall|v: nat| walk_hits(p, month, v, day + 1) <==> (walk_hits(p, month, v, day as int)
                || date_is(day as int, month, v)) by {
                if walk_hits(p, month, v, day + 1) && !walk_hits(p, month, v, day as int) {
                    let d = choose|d: int| d < day + 1 && #[trigger] walks_through(p, d) && date_is(d, month, v);
                    assert(d == day);
                }
                if date_is(day as int, month, v) {
                    assert(walks_through(p, day as int));
                }
            }
        }
        let ghost prev = taken@;
        assert((day as int) as i32 == day);
        match found {
            Some((m, d)) => {
                if m == month {
                    taken.set(d as usize, true);
                }
            },
            None => {},
        }
        proof {
            assert forall|v: nat| v < 32 implies (taken@[v as int] <==> (prev[v as int]
                || date_is(day as int, month, v))) by {
                match found {
                    Some((m, d)) => {
                        if m == month && d as nat == v {
                            assert(taken@[v as int]);
                        }
                    },
                    None => {},
                }
            }
            let ghost nd: int = day + 1;
            assert forall|v: nat| #[trigger] walk_hits(p, month, v, nd) implies 1 <= v <= 31 by {
                if !walk_hits(p, month, v, day as int) {
                    assert(date_is(day as int, month, v));
                    assert(found matches Some((m, dd)) && dd as nat == v);
                }
            }
        }
        day = day + 1;
    }
    proof {
        assert forall|v: nat| period_hits(p, month, v) <==> walk_hits(p, month, v, day as int) by {
            if period_hits(p, month, v) {
                let d = choose|d: int| d < p.return_at.day + 1 && #[trigger] walks_through(p, d) && date_is(d, month, v);
                assert(d < day);
            }
            if walk_hits(p, month, v, day as int) {
                let d = choose|d: int| d < day && #[trigger] walks_through(p, d) && date_is(d, month, v);
                assert(d < p.return_at.day + 1);
            }
        }
    }
}

/// The taken days of the month of `shown_day`: for every period, each day
/// from the rental day on, while that day at the rental's time of day is
/// before the return, whose month is the shown month; listed in increasing
/// order without repeats. `None` where `shown_day` has no date.
pub fn reserved_days(periods: &Vec<ReservedPeriod>, shown_day: i32) -> (res: Option<ReservationCalendar>)
    requires
        forall|i: int| 0 <= i < periods@.len() ==> period_in_range(#[trigger] periods@[i]),
    ensures
        month_and_day_of(shown_day) is None <==> res is None,
        res matches Some(cal) ==> {
            let month = month_and_day_of(shown_day).unwrap().0;
            &&& forall|i: int, j: int| 0 <= i < j < cal.reserved_days@.len()
                ==> cal.reserved_days@[i] < cal.reserved_days@[j]
            &&& forall|i: int| 0 <= i < cal.reserved_days@.len() ==> 1 <= #[trigger] cal.reserved_days@[i] <= 31
            &&& forall|v: u8| cal.reserved_days@.contains(v) <==> day_taken(periods@, month, v as nat)
        },
{
    let month = match month_and_day(shown_day) {
        Some((m, _)) => m,
        None => return None,
    };
    let mut taken: Vec<bool> = Vec::new();
    let mut k: usize = 0;
    while k < 32
        invariant
            k <= 32,
            taken@.len() == k,
            forall|v: int| 0 <= v < k ==> !taken@[v],
        decreases 32 - k,
    {
        taken.push(false);
        k = k + 1;
    }
    let mut i: usize = 0;
    while i < periods.len()
        invariant
            i <= periods.len(),
            taken@.len() == 32,
            forall|j: int| 0 <= j < periods@.len() ==> period_in_range(#[trigger] periods@[j]),
            forall|v: int| 0 <= v < 32 ==> (taken@[v] <==> day_taken(periods@.take(i as int), month, v as nat)),
            forall|v: nat| day_taken(periods@.take(i as int), month, v) ==> 1 <= v <= 31,
        decreases periods.len() - i,
    {
        let p = periods[i];
        assert(period_in_range(periods@[i as int]));
        let ghost marked_before = taken@;
        mark_period(&mut taken, p, month);
        proof {
            let prev = periods@.take(i as int);
            let next = periods@.take(i + 1);
            assert(next =~= prev.push(p));
            assert forall|v: nat| day_taken(next, month, v) <==> (day_taken(prev, month, v)
                || period_hits(p, month, v)) by {
                if day_taken(next, month, v) {
                    let (j, d) = choose|j: int, d: int| 0 <= j < next.len() && #[trigger] walks_through(next[j], d)
                        && date_is(d, month, v);
                    if j == i {
                        assert(walks_through(p, d));
                    } else {
                        assert(next[j] == prev[j]);
                        assert(walks_through(prev[j], d));
                    }
                }
                if day_taken(prev, month, v) {
                    let (j, d) = choose|j: int, d: int| 0 <= j < prev.len() && #[trigger] walks_through(prev[j], d)
                        && date_is(d, month, v);
                    assert(next[j] == prev[j]);
                    assert(walks_through(next[j], d));
                }
                if period_hits(p, month, v) {
                    let d = choose|d: int| d < p.return_at.day + 1 && #[trigger] walks_through(p, d)
                        && date_is(d, month, v);
                    assert(next[i as int] == p);
                    assert(walks_through(next[i as int], d));
                }
            }
            assert forall|v: int| 0 <= v < 32 implies (taken@[v] <==> day_taken(next, month, v as nat)) by {
                assert(marked_before[v] <==> day_taken(prev, month, v as nat));
                assert(taken@[v] <==> (marked_before[v] || period_hits(p, month, v as nat)));
                assert(day_taken(next, month, v as nat) <==> (day_taken(prev, month, v as nat) || period_hits(p, month, v as nat)));
            }
            assert forall|v: nat| day_taken(next, month, v) implies 1 <= v <= 31 by {
                if !day_taken(prev, month, v) {
                    assert(period_hits(p, month, v));
                }
            }
        }
        i = i + 1;
    }
    assert(periods@.take(periods.len() as int) =~= periods@);
    let mut days: Vec<u8> = Vec::new();
    let mut v: usize = 1;
    while v < 32
        invariant
            1 <= v <= 32,
            taken@.len() == 32,
            forall|a: int, b: int| 0 <= a < b < days@.len() ==> days@[a] < days@[b],
            forall|a: int| 0 <= a < days@.len() ==> 1 <= #[trigger] days@[a] < v,
            forall|w: nat| 1 <= w < v ==> (taken@[w as int] <==> days@.contains(w as u8)),
            forall|w: int| 0 <= w < 32 ==> (taken@[w] <==> day_taken(periods@, month, w as nat)),
            forall|w: nat| day_taken(periods@, month, w) ==> 1 <= w <= 31,
        decreases 32 - v,
    {
        if taken[v] {
            let ghost prev = days@;
            days.push(v as u8);
            proof {
                assert(days@[prev.len() as int] == v as u8);
                assert forall|w: nat| 1 <= w < v + 1 implies (taken@[w as int] <==> days@.contains(w as u8)) by {
                    if w < v {
                        if prev.contains(w as u8) {
                            let a = choose|a: int| 0 <= a < prev.len() && prev[a] == w as u8;
                            assert(days@[a] == w as u8);
                        }
                        if days@.contains(w as u8) {
                            let a = choose|a: int| 0 <= a < days@.len() && days@[a] == w as u8;
                            assert(a < prev.len());
                            assert(prev[a] == w as u8);
                        }
                    }
                }
            }
        } else {
            proof {
                assert(!days@.contains(v as u8));
            }
        }
        v = v + 1;
    }
    proof {
        assert forall|w: u8| days@.contains(w) <==> day_taken(periods@, month, w as nat) by {
            if days@.contains(w) {
                let a = choose|a: int| 0 <= a < days@.len() && days@[a] == w;
                assert(1 <= days@[a] < 32);
            }
            if 1 <= w < 32 {
                assert(taken@[w as int] <==> days@.contains(w));
                assert(taken@[w as int] <==> day_taken(periods@, month, w as nat));
            }
        }
    }
    Some(ReservationCalendar { reserved_days: days })
}

} // verus!
