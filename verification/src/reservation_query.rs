//! Planning the query for a user's reservation list: the filters and the
//! page, written as SQL text with its parameters, and the page count.

use vstd::prelude::*;
use crate::numtext::{signed_decimal, i64_to_text};
use crate::text::{texts, lemma_texts_push, count_char, lemma_count_concat, lemma_count_absent, lemma_count_once, lemma_count_twice, lemma_count_thrice};
use crate::http::{HttpStatus, ReservationQuery};

verus! {

/// The parameters of a reservation-list request.
pub struct ReservationListQuery {
    pub user_id: i32,
    pub page: Option<u64>,
    pub limit: Option<u64>,
    pub status: Option<String>,
    pub start_date: Option<String>,
    pub end_date: Option<String>,
    pub car_type: Option<String>,
}

/// The two statements of a reservation-list request and what they are bound
/// to: the filter parameters in order (for both), then `limit` and `offset`
/// (for the page).
pub struct ReservationListPlan {
    pub count_sql: String,
    pub select_sql: String,
    pub params: Vec<String>,
    pub limit: i64,
    pub offset: i64,
    /// The page size, as a count.
    pub page_size: u64,
}

/// The page asked for (1 by default).
pub open spec fn requested_page(q: ReservationListQuery) -> nat {
    match q.page {
        Some(p) => p as nat,
        None => 1,
    }
}

/// The page size asked for (10 by default).
pub open spec fn requested_limit(q: ReservationListQuery) -> nat {
    match q.limit {
        Some(l) => l as nat,
        None => 10,
    }
}

/// Whether the request can be paged: a page from 1 on whose offset fits in
/// 64 bits (other requests make the computation of the offset fail).
pub open spec fn pageable(q: ReservationListQuery) -> bool {
    requested_page(q) >= 1 && (requested_page(q) - 1) * requested_limit(q) <= u64::MAX
}

/// Whether the status filter applies: a status other than `all`.
pub open spec fn filters_status(q: ReservationListQuery) -> bool {
    q.status matches Some(s) && s@ != "all"@
}

/// Whether the car-type filter applies: a non-empty type.
pub open spec fn filters_car_type(q: ReservationListQuery) -> bool {
    q.car_type matches Some(c) && c@.len() > 0
}

/// The `WHERE` clause of the request.
pub open spec fn reservation_where(q: ReservationListQuery) -> Seq<char> {
    "WHERE r.user_id = ?"@
        + (if filters_status(q) { " AND r.reservation_status = ?"@ } else { Seq::empty() })
        + (if q.start_date is Some { " AND r.rental_date >= ?"@ } else { Seq::empty() })
        + (if q.end_date is Some { " AND r.return_date <= ?"@ } else { Seq::empty() })
        + (if filters_car_type(q) { " AND c.car_type = ?"@ } else { Seq::empty() })
}

/// The values bound to the placeholders of the `WHERE` clause, in order.
pub open spec fn reservation_params(q: ReservationListQuery) -> Seq<Seq<char>> {
    seq![signed_decimal(q.user_id as int)]
        + (if filters_status(q) { seq![q.status.unwrap()@] } else { Seq::empty() })
        + (if q.start_date is Some { seq![q.start_date.unwrap()@] } else { Seq::empty() })
        + (if q.end_date is Some { seq![q.end_date.unwrap()@] } else { Seq::empty() })
        + (if filters_car_type(q) { seq![q.car_type.unwrap()@] } else { Seq::empty() })
}

/// The statement that counts the user's reservations that pass the filters.
pub open spec fn reservation_count_sql(q: ReservationListQuery) -> Seq<char> {
    "SELECT COUNT(*) FROM reservation r JOIN cars c ON r.car_id = c.id "@ + reservation_where(q)
}

/// The start of the page statement: the columns read and the join.
pub open spec fn reservation_page_head() -> Seq<char> {
    "\n            SELECT r.reservation_id, c.image_url AS car_image_url, c.manufacturer AS car_manufacturer,\n                c.name AS car_model, r.rental_date, r.return_date,\n                DATEDIFF(r.return_date, r.rental_date) AS rental_period_days,\n                COALESCE(c.location, '미정') AS pickup_location,\n                COALESCE(r.total_price, 0) AS total_price,\n                r.reservation_status\n            FROM reservation r\n            JOIN cars c ON r.car_id = c.id\n            "@
}

/// The end of the page statement: newest first, then the page's limit and
/// offset.
pub open spec fn reservation_page_tail() -> Seq<char> {
    "\n            ORDER BY r.id DESC\n            LIMIT ? OFFSET ?\n            "@
}

/// The statement that reads one page of them, newest first.
pub open spec fn reservation_select_sql(q: ReservationListQuery) -> Seq<char> {
    reservation_page_head() + reservation_where(q) + reservation_page_tail()
}

/// How many pages `total` items fill at `limit` a page, as the quotient
/// rounded up and clamped to `u64` does: none for no items, every `u64`
/// for items on pages of size zero.
pub open spec fn page_count(total: int, limit: nat) -> nat {
    if total <= 0 {
        0
    } else if limit == 0 {
        u64::MAX as nat
    } else {
        ((total + limit - 1) / (limit as int)) as nat
    }
}

/// Adds ` AND <clause>` and its value when `value` is present.
fn add_filter(where_clause: &mut String, params: &mut Vec<String>, clause: &str, value: Option<String>)
    ensures
        final(where_clause)@ == old(where_clause)@ + (if value is Some { clause@ } else { Seq::<char>::empty() }),
        texts(final(params)@) == texts(old(params)@) + (if value is Some { seq![value.unwrap()@] } else {
            Seq::<Seq<char>>::empty()
        }),
{
    match value {
        Some(v) => {
            where_clause.append(clause);
            proof {
                lemma_texts_push(params@, v);
            }
            params.push(v);
        },
        None => {
            assert(where_clause@ + Seq::<char>::empty() =~= where_clause@);
            assert(texts(params@) + Seq::<Seq<char>>::empty() =~= texts(params@));
        },
    }
}

/// Plans a reservation-list request: the count and page statements, the
/// filter parameters, and the page's limit and offset.
pub fn plan_reservation_list(q: &ReservationListQuery) -> (plan: ReservationListPlan)
    requires
        pageable(*q),
    ensures
        plan.count_sql@ == reservation_count_sql(*q),
        plan.select_sql@ == reservation_select_sql(*q),
        texts(plan.params@) == reservation_params(*q),
        plan.page_size as nat == requested_limit(*q),
        plan.limit == requested_limit(*q) as u64 as i64,
        plan.offset == ((requested_page(*q) - 1) * requested_limit(*q)) as u64 as i64,
{
    let page: u64 = match q.page {
        Some(p) => p,
        None => 1,
    };
    let limit: u64 = match q.limit {
        Some(l) => l,
        None => 10,
    };
    let offset: u64 = (page - 1) * limit;
    let mut where_clause = String::from_str("WHERE r.user_id = ?");
    let mut params: Vec<String> = Vec::new();
    let user = i64_to_text(q.user_id as i64);
    proof {
        lemma_texts_push(params@, user);
    }
    params.push(user);
    assert(texts(params@) =~= seq![signed_decimal(q.user_id as int)]);
    let status = match &q.status {
        Some(s) => if *s != String::from_str("all") { Some(s.clone()) } else { None },
        None => None,
    };
    add_filter(&mut where_clause, &mut params, " AND r.reservation_status = ?", status);
    let start = match &q.start_date {
        Some(s) => Some(s.clone()),
        None => None,
    };
    add_filter(&mut where_clause, &mut params, " AND r.rental_date >= ?", start);
    let end = match &q.end_date {
        Some(s) => Some(s.clone()),
        None => None,
    };
    add_filter(&mut where_clause, &mut params, " AND r.return_date <= ?", end);
    let car = match &q.car_type {
        Some(c) => if !c.as_str().is_empty() { Some(c.clone()) } else { None },
        None => None,
    };
    add_filter(&mut where_clause, &mut params, " AND c.car_type = ?", car);
    assert(where_clause@ =~= reservation_where(*q));
    assert(texts(params@) =~= reservation_params(*q));
    let count_sql = String::from_str("SELECT COUNT(*) FROM reservation r JOIN cars c ON r.car_id = c.id ").concat(
        where_clause.as_str(),
    );
    let select_sql = String::from_str(
        "\n            SELECT r.reservation_id, c.image_url AS car_image_url, c.manufacturer AS car_manufacturer,\n                c.name AS car_model, r.rental_date, r.return_date,\n                DATEDIFF(r.return_date, r.rental_date) AS rental_period_days,\n                COALESCE(c.location, '미정') AS pickup_location,\n                COALESCE(r.total_price, 0) AS total_price,\n                r.reservation_status\n            FROM reservation r\n            JOIN cars c ON r.car_id = c.id\n            ",
    ).concat(where_clause.as_str()).concat("\n            ORDER BY r.id DESC\n            LIMIT ? OFFSET ?\n            ");
    ReservationListPlan {
        count_sql,
        select_sql,
        params,
        limit: limit as i64,
        offset: offset as i64,
        page_size: limit,
    }
}

/// How many pages `total` items fill at `limit` a page.
pub fn total_pages(total: i64, limit: u64) -> (res: u64)
    ensures
        res as nat == page_count(total as int, limit as nat),
{
    if total <= 0 {
        0
    } else if limit == 0 {
        u64::MAX
    } else {
        let t = total as u64;
        let whole = t / limit;
        let rest = t % limit;
        proof {
            let m = limit as int;
            vstd::arithmetic::div_mod::lemma_fundamental_div_mod(t as int, m);
            let e: int = if rest == 0 { 0 } else { 1 };
            assert(t + m - 1 == (whole + e) * m + (rest + m - 1 - e * m)) by (nonlinear_arith)
                requires t == m * whole + rest, e == 0 || e == 1;
            vstd::arithmetic::div_mod::lemma_fundamental_div_mod_converse(
                t + m - 1,
                m,
                whole + e,
                rest + m - 1 - e * m,
            );
        }
        if rest == 0 {
            whole
        } else {
            whole + 1
        }
    }
}


/// The question marks in the fixed pieces of the statements.
proof fn lemma_reservation_literal_marks()
    ensures
        count_char("WHERE r.user_id = ?"@, '?') == 1,
        count_char(" AND r.reservation_status = ?"@, '?') == 1,
        count_char(" AND r.rental_date >= ?"@, '?') == 1,
        count_char(" AND r.return_date <= ?"@, '?') == 1,
        count_char(" AND c.car_type = ?"@, '?') == 1,
        count_char("SELECT COUNT(*) FROM reservation r JOIN cars c ON r.car_id = c.id "@, '?') == 0,
        count_char(reservation_page_head(), '?') == 0,
        count_char(reservation_page_tail(), '?') == 2,
{
    reveal_strlit("WHERE r.user_id = ?");
    reveal_strlit(" AND r.reservation_status = ?");
    reveal_strlit(" AND r.rental_date >= ?");
    reveal_strlit(" AND r.return_date <= ?");
    reveal_strlit(" AND c.car_type = ?");
    reveal_strlit("SELECT COUNT(*) FROM reservation r JOIN cars c ON r.car_id = c.id ");
    reveal_strlit("\n            SELECT r.reservation_id, c.image_url AS car_image_url, c.manufacturer AS car_manufacturer,\n                c.name AS car_model, r.rental_date, r.return_date,\n                DATEDIFF(r.return_date, r.rental_date) AS rental_period_days,\n                COALESCE(c.location, '미정') AS pickup_location,\n                COALESCE(r.total_price, 0) AS total_price,\n                r.reservation_status\n            FROM reservation r\n            JOIN cars c ON r.car_id = c.id\n            ");
    reveal_strlit("\n            ORDER BY r.id DESC\n            LIMIT ? OFFSET ?\n            ");
    lemma_count_once("WHERE r.user_id = ?"@, '?', 18);
    lemma_count_once(" AND r.reservation_status = ?"@, '?', 28);
    lemma_count_once(" AND r.rental_date >= ?"@, '?', 22);
    lemma_count_once(" AND r.return_date <= ?"@, '?', 22);
    lemma_count_once(" AND c.car_type = ?"@, '?', 18);
    lemma_count_absent("SELECT COUNT(*) FROM reservation r JOIN cars c ON r.car_id = c.id "@, '?');
    lemma_count_absent(reservation_page_head(), '?');
    lemma_count_twice(reservation_page_tail(), '?', 50, 59);
}

/// The question marks of a piece written only where `present` holds.
proof fn lemma_optional_marks(present: bool, x: Seq<char>)
    ensures
        count_char(if present { x } else { Seq::<char>::empty() }, '?') == if present { count_char(x, '?') } else { 0 },
{
}

/// The `WHERE` clause holds one question mark for each of its parameters.
proof fn lemma_reservation_where_marks(q: ReservationListQuery)
    ensures
        count_char(reservation_where(q), '?') == reservation_params(q).len(),
{
    lemma_reservation_literal_marks();
    let a = "WHERE r.user_id = ?"@;
    let b = if filters_status(q) { " AND r.reservation_status = ?"@ } else { Seq::<char>::empty() };
    let c = if q.start_date is Some { " AND r.rental_date >= ?"@ } else { Seq::<char>::empty() };
    let d = if q.end_date is Some { " AND r.return_date <= ?"@ } else { Seq::<char>::empty() };
    let e = if filters_car_type(q) { " AND c.car_type = ?"@ } else { Seq::<char>::empty() };
    lemma_optional_marks(filters_status(q), " AND r.reservation_status = ?"@);
    lemma_optional_marks(q.start_date is Some, " AND r.rental_date >= ?"@);
    lemma_optional_marks(q.end_date is Some, " AND r.return_date <= ?"@);
    lemma_optional_marks(filters_car_type(q), " AND c.car_type = ?"@);
    lemma_count_concat(a, b, '?');
    lemma_count_concat(a + b, c, '?');
    lemma_count_concat(a + b + c, d, '?');
    lemma_count_concat(a + b + c + d, e, '?');
}

/// Every placeholder of a reservation-list request has its value: the
/// counting statement holds one question mark for each parameter, in the
/// order the parameters are bound, and the page statement two more, for the
/// page's limit and offset.
pub proof fn law_reservation_list_placeholders(q: ReservationListQuery)
    ensures
        count_char(reservation_count_sql(q), '?') == reservation_params(q).len(),
        count_char(reservation_select_sql(q), '?') == reservation_params(q).len() + 2,
{
    lemma_reservation_literal_marks();
    lemma_reservation_where_marks(q);
    let w = reservation_where(q);
    lemma_count_concat("SELECT COUNT(*) FROM reservation r JOIN cars c ON r.car_id = c.id "@, w, '?');
    lemma_count_concat(reservation_page_head(), w, '?');
    lemma_count_concat(reservation_page_head() + w, reservation_page_tail(), '?');
}

/// The statement that reads one of the caller's reservations together with
/// its payment of a given transaction; bound, in order: the reservation's
/// identifier, the transaction's identifier, the caller.
pub open spec fn reservation_info_sql() -> Seq<char> {
    "\n            SELECT \n                r.car_id,\n                CAST(c.year AS UNSIGNED) as year, -- 강제 형 변환\n                c.manufacturer,\n                c.name,\n                c.image_url,\n                r.rental_date,\n                r.return_date,\n                c.daily_rate,\n                r.total_price,\n                r.request,\n                p.payment_date,\n                p.reservation_id as payment_reservation_id,\n                p.payment_method,\n                p.amount,\n                r.reservation_status\n            FROM reservation r\n            JOIN payment p ON r.reservation_id = p.reservation_id\n            JOIN cars c ON r.car_id = c.id\n            WHERE r.reservation_id = ? AND p.transaction_id = ? AND r.user_id = ?\n            "@
}

/// A lookup of a reservation with one of its payments: the statement and the
/// values bound to its placeholders.
pub struct ReservationInfoPlan {
    pub sql: String,
    pub reservation_id: String,
    pub transaction_id: String,
    pub user_id: i32,
}

/// Plans the lookup of the caller's reservation with the payment that the
/// request names; the statement holds one placeholder for each bound value.
pub fn plan_reservation_info(q: &ReservationQuery, user_id: i32) -> (plan: ReservationInfoPlan)
    ensures
        plan.sql@ == reservation_info_sql(),
        count_char(plan.sql@, '?') == 3,
        plan.reservation_id@ == q.reservation_id@,
        plan.transaction_id@ == q.payment_id@,
        plan.user_id == user_id,
{
    proof {
        reveal_strlit("\n            SELECT \n                r.car_id,\n                CAST(c.year AS UNSIGNED) as year, -- 강제 형 변환\n                c.manufacturer,\n                c.name,\n                c.image_url,\n                r.rental_date,\n                r.return_date,\n                c.daily_rate,\n                r.total_price,\n                r.request,\n                p.payment_date,\n                p.reservation_id as payment_reservation_id,\n                p.payment_method,\n                p.amount,\n                r.reservation_status\n            FROM reservation r\n            JOIN payment p ON r.reservation_id = p.reservation_id\n            JOIN cars c ON r.car_id = c.id\n            WHERE r.reservation_id = ? AND p.transaction_id = ? AND r.user_id = ?\n            ");
        lemma_count_thrice(reservation_info_sql(), '?', 709, 734, 752);
    }
    ReservationInfoPlan {
        sql: String::from_str("\n            SELECT \n                r.car_id,\n                CAST(c.year AS UNSIGNED) as year, -- 강제 형 변환\n                c.manufacturer,\n                c.name,\n                c.image_url,\n                r.rental_date,\n                r.return_date,\n                c.daily_rate,\n                r.total_price,\n                r.request,\n                p.payment_date,\n                p.reservation_id as payment_reservation_id,\n                p.payment_method,\n                p.amount,\n                r.reservation_status\n            FROM reservation r\n            JOIN payment p ON r.reservation_id = p.reservation_id\n            JOIN cars c ON r.car_id = c.id\n            WHERE r.reservation_id = ? AND p.transaction_id = ? AND r.user_id = ?\n            "),
        reservation_id: q.reservation_id.clone(),
        transaction_id: q.payment_id.clone(),
        user_id,
    }
}

/// The answer once the lookup ran: the row found; not found where there is
/// none; an internal error where the lookup failed.
pub fn reservation_info_answer<T>(found: Result<Option<T>, String>) -> (res: Result<T, HttpStatus>)
    ensures
        (match found {
            Err(_) => res == Err::<T, HttpStatus>(HttpStatus::InternalServerError),
            Ok(None) => res == Err::<T, HttpStatus>(HttpStatus::NotFound),
            Ok(Some(row)) => res == Ok::<T, HttpStatus>(row),
        }),
{
    match found {
        Err(_) => Err(HttpStatus::InternalServerError),
        Ok(None) => Err(HttpStatus::NotFound),
        Ok(Some(row)) => Ok(row),
    }
}

/// A start date is always filtered for as a lower bound on the rental date
/// and bound to its value, whatever the other filters: after the caller's
/// clause and the status clause (where it applies), the `WHERE` clause goes
/// on with ` AND r.rental_date >= ?`, and the value bound to that placeholder,
/// the one after theirs, is the start date.
pub proof fn law_start_date_filter(q: ReservationListQuery)
    requires
        q.start_date is Some,
    ensures
        ({
            let before = "WHERE r.user_id = ?"@
                + (if filters_status(q) { " AND r.reservation_status = ?"@ } else { Seq::<char>::empty() });
            let clause = " AND r.rental_date >= ?"@;
            let j: int = if filters_status(q) { 2 } else { 1 };
            &&& reservation_where(q).take((before.len() + clause.len()) as int) == before + clause
            &&& count_char(before, '?') == j
            &&& reservation_params(q)[j] == q.start_date.unwrap()@
        }),
{
    lemma_reservation_literal_marks();
    let before = "WHERE r.user_id = ?"@
        + (if filters_status(q) { " AND r.reservation_status = ?"@ } else { Seq::<char>::empty() });
    let clause = " AND r.rental_date >= ?"@;
    lemma_optional_marks(filters_status(q), " AND r.reservation_status = ?"@);
    lemma_count_concat("WHERE r.user_id = ?"@, if filters_status(q) { " AND r.reservation_status = ?"@ } else { Seq::<char>::empty() }, '?');
    assert(reservation_where(q).take((before.len() + clause.len()) as int) =~= before + clause);
}

/// An end date is always filtered for as an upper bound on the return date
/// and bound to its value, whatever the other filters: after the caller's
/// clause, the status clause and the start clause (each where it applies),
/// the `WHERE` clause goes on with ` AND r.return_date <= ?`, and the value
/// bound to that placeholder, the one after theirs, is the end date.
pub proof fn law_end_date_filter(q: ReservationListQuery)
    requires
        q.end_date is Some,
    ensures
        ({
            let before = "WHERE r.user_id = ?"@
                + (if filters_status(q) { " AND r.reservation_status = ?"@ } else { Seq::<char>::empty() })
                + (if q.start_date is Some { " AND r.rental_date >= ?"@ } else { Seq::<char>::empty() });
            let clause = " AND r.return_date <= ?"@;
            let j: int = 1 + (if filters_status(q) { 1int } else { 0int }) + (if q.start_date is Some { 1int } else { 0int });
            &&& reservation_where(q).take((before.len() + clause.len()) as int) == before + clause
            &&& count_char(before, '?') == j
            &&& reservation_params(q)[j] == q.end_date.unwrap()@
        }),
{
    lemma_reservation_literal_marks();
    let s1 = if filters_status(q) { " AND r.reservation_status = ?"@ } else { Seq::<char>::empty() };
    let s2 = if q.start_date is Some { " AND r.rental_date >= ?"@ } else { Seq::<char>::empty() };
    let before = "WHERE r.user_id = ?"@ + s1 + s2;
    let clause = " AND r.return_date <= ?"@;
    lemma_optional_marks(filters_status(q), " AND r.reservation_status = ?"@);
    lemma_optional_marks(q.start_date is Some, " AND r.rental_date >= ?"@);
    lemma_count_concat("WHERE r.user_id = ?"@, s1, '?');
    lemma_count_concat("WHERE r.user_id = ?"@ + s1, s2, '?');
    assert(reservation_where(q).take((before.len() + clause.len()) as int) =~= before + clause);
}

} // verus!
