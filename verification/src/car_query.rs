//! Planning the car-list query: the filters, the order and the page that a
//! list request asks for, written as SQL text with its parameters.

use vstd::prelude::*;
use crate::numtext::{signed_decimal, i64_to_text};
use crate::text::{joined, split_pieces, split_on, join_with, texts, lemma_texts_push, count_char, total_count, lemma_count_concat, lemma_count_joined, lemma_total_count_concat, lemma_count_absent, lemma_count_once, lemma_count_twice};

verus! {

/// The parameters of a car-list request.
pub struct CarQuery {
    pub start: Option<usize>,
    pub limit: Option<usize>,
    pub sort: Option<String>,
    pub rental_date: Option<String>,
    pub return_date: Option<String>,
    pub min_daily_rate: Option<i32>,
    pub max_daily_rate: Option<i32>,
    pub car_type: Option<String>,
    pub fuel_type: Option<String>,
    pub transmission: Option<String>,
    pub status: Option<String>,
    pub owner_id: Option<i32>,
}

/// The two statements of a car-list request and what they are bound to: the
/// filter parameters in order (for both), then `limit` and `offset` (for the
/// page).
pub struct CarListPlan {
    pub count_sql: String,
    pub select_sql: String,
    pub params: Vec<String>,
    pub limit: u64,
    pub offset: u64,
}

/// The page size: the requested one, or 6 where none or zero was asked for.
pub open spec fn page_limit(q: CarQuery) -> nat {
    match q.limit {
        Some(l) => if l > 0 { l as nat } else { 6 },
        None => 6,
    }
}

/// The index of the first car of the page (0 by default).
pub open spec fn page_start(q: CarQuery) -> nat {
    match q.start {
        Some(s) => s as nat,
        None => 0,
    }
}

/// The filter on free cars: none of their reservations meets the period.
pub open spec fn availability_clause() -> Seq<char> {
    "id NOT IN (\n                    SELECT car_id FROM reservation\n                    WHERE NOT (\n                        return_date < ? OR rental_date > ?\n                    )\n                )"@
}

/// `n` placeholders separated by commas.
pub open spec fn placeholders(n: nat) -> Seq<char> {
    joined(Seq::new(n, |_i: int| "?"@), ","@)
}

/// `column IN (?,…,?)` with `n` placeholders.
pub open spec fn in_list_clause(column: Seq<char>, n: nat) -> Seq<char> {
    column + " IN ("@ + placeholders(n) + ")"@
}

/// The comma-separated values of an optional list parameter.
pub open spec fn list_values(p: Option<String>) -> Seq<Seq<char>> {
    match p {
        Some(s) => split_pieces(s@, ','),
        None => Seq::empty(),
    }
}

/// The clause `x` where `present` holds, and nothing otherwise.
pub open spec fn optional_clause(present: bool, x: Seq<char>) -> Seq<Seq<char>> {
    if present { seq![x] } else { Seq::empty() }
}

/// The filter clauses of a request, in the order in which they are written.
pub open spec fn car_filter_clauses(q: CarQuery) -> Seq<Seq<char>> {
    optional_clause(q.rental_date is Some && q.return_date is Some, availability_clause())
    + optional_clause(q.min_daily_rate is Some, "daily_rate >= ?"@)
    + optional_clause(q.max_daily_rate is Some, "daily_rate <= ?"@)
    + optional_clause(q.car_type is Some, in_list_clause("car_type"@, list_values(q.car_type).len()))
    + optional_clause(q.fuel_type is Some, in_list_clause("fuel_type"@, list_values(q.fuel_type).len()))
    + optional_clause(q.transmission is Some, in_list_clause("transmission"@, list_values(q.transmission).len()))
    + optional_clause(q.status is Some, "status IN (?)"@)
    + optional_clause(q.owner_id is Some, "owner = ?"@)
}

/// The values bound to the placeholders of the filter clauses, in order.
pub open spec fn car_filter_params(q: CarQuery) -> Seq<Seq<char>> {
    (if q.rental_date is Some && q.return_date is Some {
        seq![q.rental_date.unwrap()@, q.return_date.unwrap()@]
    } else { seq![] })
    + (if q.min_daily_rate is Some { seq![signed_decimal(q.min_daily_rate.unwrap() as int)] } else { seq![] })
    + (if q.max_daily_rate is Some { seq![signed_decimal(q.max_daily_rate.unwrap() as int)] } else { seq![] })
    + list_values(q.car_type)
    + list_values(q.fuel_type)
    + list_values(q.transmission)
    + (if q.status is Some { seq![q.status.unwrap()@] } else { seq![] })
    + (if q.owner_id is Some { seq![signed_decimal(q.owner_id.unwrap() as int)] } else { seq![] })
}

/// `WHERE c1 AND c2 …`, or nothing where there is no clause.
pub open spec fn where_text(clauses: Seq<Seq<char>>) -> Seq<char> {
    if clauses.len() > 0 { "WHERE "@ + joined(clauses, " AND "@) } else { Seq::empty() }
}

/// The order that a `sort` value asks for; by name where it names none of
/// the known orders.
pub open spec fn order_clause(sort: Option<String>) -> Seq<char> {
    let key = match sort {
        Some(s) => s@,
        None => "plate_number ASC"@,
    };
    if key == "daily_rate_asc"@ {
        "ORDER BY daily_rate ASC"@
    } else if key == "daily_rate_desc"@ {
        "ORDER BY daily_rate DESC"@
    } else if key == "rating_desc"@ {
        "ORDER BY rating DESC"@
    } else if key == "rating_asc"@ {
        "ORDER BY rating ASC"@
    } else {
        "ORDER BY name ASC"@
    }
}

/// The statement that counts the cars that pass the filters.
pub open spec fn car_count_sql(q: CarQuery) -> Seq<char> {
    "SELECT COUNT(*) FROM cars "@ + where_text(car_filter_clauses(q))
}

/// The statement that reads one page of the cars that pass the filters.
pub open spec fn car_select_sql(q: CarQuery) -> Seq<char> {
    "SELECT id, plate_number, manufacturer, name, year, car_type, fuel_type, transmission, seat_num, color, image_url, daily_rate, location, rating, description, status FROM cars "@
        + where_text(car_filter_clauses(q)) + " "@ + order_clause(q.sort) + " LIMIT ? OFFSET ?"@
}

/// Writes `n` placeholders separated by commas.
fn placeholders_text(n: usize) -> (res: String)
    ensures
        res@ == placeholders(n as nat),
{
    let mut marks: Vec<String> = Vec::new();
    let mut i: usize = 0;
    while i < n
        invariant
            i <= n,
            texts(marks@) =~= Seq::new(i as nat, |_j: int| "?"@),
        decreases n - i,
    {
        let mark = String::from_str("?");
        proof {
            lemma_texts_push(marks@, mark);
        }
        marks.push(mark);
        i = i + 1;
    }
    join_with(&marks, ",")
}

/// Writes `column IN (?,…,?)` for a list of `n` values.
fn in_list_text(column: &str, n: usize) -> (res: String)
    ensures
        res@ == in_list_clause(column@, n as nat),
{
    let marks = placeholders_text(n);
    String::from_str(column).concat(" IN (").concat(marks.as_str()).concat(")")
}

/// Appends the values of a comma-separated list parameter.
fn push_list_values(params: &mut Vec<String>, values: &Option<String>) -> (count: usize)
    ensures
        texts(final(params)@) == texts(old(params)@) + list_values(*values),
        count == list_values(*values).len(),
{
    match values {
        Some(s) => {
            let pieces = split_on(s.as_str(), ',');
            let count = pieces.len();
            let ghost before = params@;
            let mut i: usize = 0;
            while i < pieces.len()
                invariant
                    i <= pieces.len(),
                    texts(params@) =~= texts(before) + texts(pieces@).take(i as int),
                decreases pieces.len() - i,
            {
                let piece = pieces[i].clone();
                proof {
                    lemma_texts_push(params@, piece);
                    assert(texts(pieces@).take(i + 1) =~= texts(pieces@).take(i as int).push(piece@));
                }
                params.push(piece);
                i = i + 1;
            }
            assert(texts(pieces@).take(pieces.len() as int) =~= texts(pieces@));
            count
        },
        None => {
            assert(texts(params@) + list_values(*values) =~= texts(params@));
            0
        },
    }
}

/// Plans the car-list request: the count and page statements, the filter
/// parameters, and the page's limit and offset.
pub fn plan_car_list(q: &CarQuery) -> (plan: CarListPlan)
    ensures
        plan.count_sql@ == car_count_sql(*q),
        plan.select_sql@ == car_select_sql(*q),
        texts(plan.params@) == car_filter_params(*q),
        plan.limit as nat == page_limit(*q),
        plan.offset as nat == page_start(*q),
{
    let (clauses, params) = filter_clauses(q);
    let ghost qv = *q;
    let where_clause = if clauses.len() > 0 {
        let body = join_with(&clauses, " AND ");
        String::from_str("WHERE ").concat(body.as_str())
    } else {
        String::new()
    };
    assert(where_clause@ =~= where_text(car_filter_clauses(qv)));
    let count_sql = String::from_str("SELECT COUNT(*) FROM cars ").concat(where_clause.as_str());
    let order = order_by_text(&q.sort);
    let select_sql = String::from_str(
        "SELECT id, plate_number, manufacturer, name, year, car_type, fuel_type, transmission, seat_num, color, image_url, daily_rate, location, rating, description, status FROM cars ",
    ).concat(where_clause.as_str()).concat(" ").concat(order.as_str()).concat(" LIMIT ? OFFSET ?");
    let requested = match q.limit {
        Some(l) => l,
        None => 6,
    };
    let limit: usize = if requested > 0 { requested } else { 6 };
    let start_index: usize = match q.start {
        Some(s) => s,
        None => 0,
    };
    CarListPlan {
        count_sql,
        select_sql,
        params,
        limit: limit as u64,
        offset: start_index as u64,
    }
}

/// The outcome of a car-list request once both statements ran.
pub enum CarListOutcome<T> {
    /// Both succeeded: how many cars pass the filters, and the page.
    Listed(i64, Vec<T>),
    /// The counting statement failed with this text.
    CountFailed(String),
    /// The counting statement succeeded and the page statement failed.
    PageFailed(String),
}

/// Combines the outcomes of the two statements of a car-list request: a
/// failed count is reported first, then a failed page.
pub fn car_list_outcome<T>(count: Result<i64, String>, cars: Result<Vec<T>, String>) -> (res: CarListOutcome<T>)
    ensures
        (match count {
            Err(e) => res matches CarListOutcome::CountFailed(m) && m@ == e@,
            Ok(total) => match cars {
                Err(e) => res matches CarListOutcome::PageFailed(m) && m@ == e@,
                Ok(page) => res matches CarListOutcome::Listed(t, p) && t == total && p@ == page@,
            },
        }),
{
    match count {
        Err(e) => CarListOutcome::CountFailed(e),
        Ok(total) => match cars {
            Err(e) => CarListOutcome::PageFailed(e),
            Ok(page) => CarListOutcome::Listed(total, page),
        },
    }
}

/// Appends `clause` and its value when `value` is present.
fn push_single(
    clauses: &mut Vec<String>,
    params: &mut Vec<String>,
    clause: &str,
    value: Option<String>,
)
    ensures
        texts(final(clauses)@) == texts(old(clauses)@) + (if value is Some { seq![clause@] } else {
            Seq::<Seq<char>>::empty()
        }),
        texts(final(params)@) == texts(old(params)@) + (if value is Some { seq![value.unwrap()@] } else {
            Seq::<Seq<char>>::empty()
        }),
{
    let ghost cs = clauses@;
    let ghost ps = params@;
    match value {
        Some(v) => {
            let c = String::from_str(clause);
            proof {
                lemma_texts_push(cs, c);
                lemma_texts_push(ps, v);
            }
            clauses.push(c);
            params.push(v);
        },
        None => {
            assert(texts(cs) + Seq::<Seq<char>>::empty() =~= texts(cs));
            assert(texts(ps) + Seq::<Seq<char>>::empty() =~= texts(ps));
        },
    }
}

/// Appends `column IN (…)` and the list's values when the list is present.
fn push_list(
    clauses: &mut Vec<String>,
    params: &mut Vec<String>,
    column: &str,
    values: &Option<String>,
)
    ensures
        texts(final(clauses)@) == texts(old(clauses)@) + (if values is Some {
            seq![in_list_clause(column@, list_values(*values).len())]
        } else {
            Seq::<Seq<char>>::empty()
        }),
        texts(final(params)@) == texts(old(params)@) + list_values(*values),
{
    let ghost cs = clauses@;
    let n = push_list_values(params, values);
    if values.is_some() {
        let c = in_list_text(column, n);
        proof {
            lemma_texts_push(cs, c);
        }
        clauses.push(c);
    } else {
        assert(texts(cs) + Seq::<Seq<char>>::empty() =~= texts(cs));
    }
}

/// The filter clauses of a request and the values bound to them.
fn filter_clauses(q: &CarQuery) -> (res: (Vec<String>, Vec<String>))
    ensures
        texts(res.0@) == car_filter_clauses(*q),
        texts(res.1@) == car_filter_params(*q),
{
    let mut clauses: Vec<String> = Vec::new();
    let mut params: Vec<String> = Vec::new();
    match (&q.rental_date, &q.return_date) {
        (Some(rental), Some(ret)) => {
            let c = String::from_str(
                "id NOT IN (\n                    SELECT car_id FROM reservation\n                    WHERE NOT (\n                        return_date < ? OR rental_date > ?\n                    )\n                )",
            );
            let r1 = rental.clone();
            let r2 = ret.clone();
            clauses.push(c);
            params.push(r1);
            params.push(r2);
            assert(texts(clauses@) =~= seq![availability_clause()]);
            assert(texts(params@) =~= seq![rental@, ret@]);
        },
        _ => {
            assert(texts(clauses@) =~= Seq::<Seq<char>>::empty());
            assert(texts(params@) =~= Seq::<Seq<char>>::empty());
        },
    }
    let ghost c0 = texts(clauses@);
    let ghost p0 = texts(params@);
    let min = match q.min_daily_rate {
        Some(m) => Some(i64_to_text(m as i64)),
        None => None,
    };
    push_single(&mut clauses, &mut params, "daily_rate >= ?", min);
    let max = match q.max_daily_rate {
        Some(m) => Some(i64_to_text(m as i64)),
        None => None,
    };
    push_single(&mut clauses, &mut params, "daily_rate <= ?", max);
    push_list(&mut clauses, &mut params, "car_type", &q.car_type);
    push_list(&mut clauses, &mut params, "fuel_type", &q.fuel_type);
    push_list(&mut clauses, &mut params, "transmission", &q.transmission);
    let status = match &q.status {
        Some(st) => Some(st.clone()),
        None => None,
    };
    push_single(&mut clauses, &mut params, "status IN (?)", status);
    let owner = match q.owner_id {
        Some(o) => Some(i64_to_text(o as i64)),
        None => None,
    };
    push_single(&mut clauses, &mut params, "owner = ?", owner);
    assert(texts(clauses@) =~= car_filter_clauses(*q));
    assert(texts(params@) =~= car_filter_params(*q));
    (clauses, params)
}

/// Writes the order that a `sort` value asks for.
fn order_by_text(sort: &Option<String>) -> (res: String)
    ensures
        res@ == order_clause(*sort),
{
    let key = match sort {
        Some(s) => s.clone(),
        None => String::from_str("plate_number ASC"),
    };
    if key == String::from_str("daily_rate_asc") {
        String::from_str("ORDER BY daily_rate ASC")
    } else if key == String::from_str("daily_rate_desc") {
        String::from_str("ORDER BY daily_rate DESC")
    } else if key == String::from_str("rating_desc") {
        String::from_str("ORDER BY rating DESC")
    } else if key == String::from_str("rating_asc") {
        String::from_str("ORDER BY rating ASC")
    } else {
        String::from_str("ORDER BY name ASC")
    }
}



proof fn lemma_marks_count(n: nat)
    ensures
        total_count(Seq::new(n, |_i: int| "?"@), '?') == n,
    decreases n,
{
    reveal_strlit("?");
    if n > 0 {
        lemma_marks_count((n - 1) as nat);
        assert(Seq::new(n, |_i: int| "?"@).drop_last() =~= Seq::new((n - 1) as nat, |_i: int| "?"@));
        assert(count_char("?"@, '?') == 1) by {
            reveal_with_fuel(count_char, 3);
            assert("?"@.drop_last() =~= Seq::<char>::empty());
        }
    }
}

/// A list filter has one placeholder for each value of the list: the
/// clause `column IN (?,…,?)` written for `n` values holds exactly `n`
/// question marks, where the column name holds none.
pub proof fn law_list_filter_placeholders(column: Seq<char>, n: nat)
    requires
        count_char(column, '?') == 0,
    ensures
        count_char(in_list_clause(column, n), '?') == n,
{
    reveal_strlit(",");
    reveal_strlit(" IN (");
    reveal_strlit(")");
    reveal_with_fuel(count_char, 6);
    assert(count_char(","@, '?') == 0);
    assert(count_char(" IN ("@, '?') == 0);
    assert(count_char(")"@, '?') == 0);
    lemma_marks_count(n);
    lemma_count_joined(Seq::new(n, |_i: int| "?"@), ","@, '?');
    lemma_count_concat(column, " IN ("@, '?');
    lemma_count_concat(column + " IN ("@, placeholders(n), '?');
    lemma_count_concat(column + " IN ("@ + placeholders(n), ")"@, '?');
}


/// The question marks in the fixed pieces of the filter clauses.
proof fn lemma_clause_literal_marks()
    ensures
        count_char(availability_clause(), '?') == 2,
        count_char("daily_rate >= ?"@, '?') == 1,
        count_char("daily_rate <= ?"@, '?') == 1,
        count_char("status IN (?)"@, '?') == 1,
        count_char("owner = ?"@, '?') == 1,
        count_char("car_type"@, '?') == 0,
        count_char("fuel_type"@, '?') == 0,
        count_char("transmission"@, '?') == 0,
{
    reveal_strlit("id NOT IN (\n                    SELECT car_id FROM reservation\n                    WHERE NOT (\n                        return_date < ? OR rental_date > ?\n                    )\n                )");
    reveal_strlit("daily_rate >= ?");
    reveal_strlit("daily_rate <= ?");
    reveal_strlit("status IN (?)");
    reveal_strlit("owner = ?");
    reveal_strlit("car_type");
    reveal_strlit("fuel_type");
    reveal_strlit("transmission");
    lemma_count_twice(availability_clause(), '?', 133, 152);
    lemma_count_once("daily_rate >= ?"@, '?', 14);
    lemma_count_once("daily_rate <= ?"@, '?', 14);
    lemma_count_once("status IN (?)"@, '?', 11);
    lemma_count_once("owner = ?"@, '?', 8);
    lemma_count_absent("car_type"@, '?');
    lemma_count_absent("fuel_type"@, '?');
    lemma_count_absent("transmission"@, '?');
}

/// The question marks in the fixed pieces of the two statements.
proof fn lemma_statement_literal_marks()
    ensures
        count_char("SELECT COUNT(*) FROM cars "@, '?') == 0,
        count_char("SELECT id, plate_number, manufacturer, name, year, car_type, fuel_type, transmission, seat_num, color, image_url, daily_rate, location, rating, description, status FROM cars "@, '?') == 0,
        count_char("WHERE "@, '?') == 0,
        count_char(" AND "@, '?') == 0,
        count_char(" "@, '?') == 0,
        count_char(" LIMIT ? OFFSET ?"@, '?') == 2,
{
    reveal_strlit("SELECT COUNT(*) FROM cars ");
    reveal_strlit("SELECT id, plate_number, manufacturer, name, year, car_type, fuel_type, transmission, seat_num, color, image_url, daily_rate, location, rating, description, status FROM cars ");
    reveal_strlit("WHERE ");
    reveal_strlit(" AND ");
    reveal_strlit(" ");
    reveal_strlit(" LIMIT ? OFFSET ?");
    lemma_count_absent("SELECT COUNT(*) FROM cars "@, '?');
    lemma_count_absent("SELECT id, plate_number, manufacturer, name, year, car_type, fuel_type, transmission, seat_num, color, image_url, daily_rate, location, rating, description, status FROM cars "@, '?');
    lemma_count_absent("WHERE "@, '?');
    lemma_count_absent(" AND "@, '?');
    lemma_count_absent(" "@, '?');
    lemma_count_twice(" LIMIT ? OFFSET ?"@, '?', 7, 16);
}

/// No order clause holds a question mark.
proof fn lemma_order_marks(sort: Option<String>)
    ensures
        count_char(order_clause(sort), '?') == 0,
{
    reveal_strlit("ORDER BY daily_rate ASC");
    reveal_strlit("ORDER BY daily_rate DESC");
    reveal_strlit("ORDER BY rating DESC");
    reveal_strlit("ORDER BY rating ASC");
    reveal_strlit("ORDER BY name ASC");
    lemma_count_absent("ORDER BY daily_rate ASC"@, '?');
    lemma_count_absent("ORDER BY daily_rate DESC"@, '?');
    lemma_count_absent("ORDER BY rating DESC"@, '?');
    lemma_count_absent("ORDER BY rating ASC"@, '?');
    lemma_count_absent("ORDER BY name ASC"@, '?');
}

/// The question marks of a list holding at most one clause.
proof fn lemma_total_count_optional(present: bool, x: Seq<char>, c: char)
    ensures
        total_count(optional_clause(present, x), c) == if present { count_char(x, c) } else { 0 },
{
    assert(total_count(Seq::<Seq<char>>::empty(), c) == 0);
    if present {
        let one = seq![x];
        assert(one.drop_last() =~= Seq::<Seq<char>>::empty());
        assert(one.last() == x);
        assert(total_count(one, c) == total_count(one.drop_last(), c) + count_char(one.last(), c));
    }
}

/// The filter clauses hold one question mark for each filter value.
proof fn lemma_clause_marks(q: CarQuery)
    ensures
        total_count(car_filter_clauses(q), '?') == car_filter_params(q).len(),
{
    lemma_clause_literal_marks();
    let nc = list_values(q.car_type).len();
    let nf = list_values(q.fuel_type).len();
    let nt = list_values(q.transmission).len();
    law_list_filter_placeholders("car_type"@, nc);
    law_list_filter_placeholders("fuel_type"@, nf);
    law_list_filter_placeholders("transmission"@, nt);
    let a = optional_clause(q.rental_date is Some && q.return_date is Some, availability_clause());
    let b = optional_clause(q.min_daily_rate is Some, "daily_rate >= ?"@);
    let c = optional_clause(q.max_daily_rate is Some, "daily_rate <= ?"@);
    let d = optional_clause(q.car_type is Some, in_list_clause("car_type"@, nc));
    let e = optional_clause(q.fuel_type is Some, in_list_clause("fuel_type"@, nf));
    let f = optional_clause(q.transmission is Some, in_list_clause("transmission"@, nt));
    let g = optional_clause(q.status is Some, "status IN (?)"@);
    let h = optional_clause(q.owner_id is Some, "owner = ?"@);
    lemma_total_count_optional(q.rental_date is Some && q.return_date is Some, availability_clause(), '?');
    lemma_total_count_optional(q.min_daily_rate is Some, "daily_rate >= ?"@, '?');
    lemma_total_count_optional(q.max_daily_rate is Some, "daily_rate <= ?"@, '?');
    lemma_total_count_optional(q.car_type is Some, in_list_clause("car_type"@, nc), '?');
    lemma_total_count_optional(q.fuel_type is Some, in_list_clause("fuel_type"@, nf), '?');
    lemma_total_count_optional(q.transmission is Some, in_list_clause("transmission"@, nt), '?');
    lemma_total_count_optional(q.status is Some, "status IN (?)"@, '?');
    lemma_total_count_optional(q.owner_id is Some, "owner = ?"@, '?');
    lemma_total_count_concat(a, b, '?');
    lemma_total_count_concat(a + b, c, '?');
    lemma_total_count_concat(a + b + c, d, '?');
    lemma_total_count_concat(a + b + c + d, e, '?');
    lemma_total_count_concat(a + b + c + d + e, f, '?');
    lemma_total_count_concat(a + b + c + d + e + f, g, '?');
    lemma_total_count_concat(a + b + c + d + e + f + g, h, '?');
}

/// The `WHERE` text holds the question marks of its clauses and no more.
proof fn lemma_where_marks(clauses: Seq<Seq<char>>)
    ensures
        count_char(where_text(clauses), '?') == total_count(clauses, '?'),
{
    lemma_statement_literal_marks();
    if clauses.len() > 0 {
        lemma_count_joined(clauses, " AND "@, '?');
        lemma_count_concat("WHERE "@, joined(clauses, " AND "@), '?');
    }
}

/// Every placeholder of a car-list request has its value: the counting
/// statement holds one question mark for each filter parameter, in the
/// order the parameters are bound, and the page statement two more, for
/// the page's limit and offset.
pub proof fn law_car_list_placeholders(q: CarQuery)
    ensures
        count_char(car_count_sql(q), '?') == car_filter_params(q).len(),
        count_char(car_select_sql(q), '?') == car_filter_params(q).len() + 2,
{
    lemma_statement_literal_marks();
    lemma_order_marks(q.sort);
    lemma_clause_marks(q);
    let w = where_text(car_filter_clauses(q));
    lemma_where_marks(car_filter_clauses(q));
    lemma_count_concat("SELECT COUNT(*) FROM cars "@, w, '?');
    let head = "SELECT id, plate_number, manufacturer, name, year, car_type, fuel_type, transmission, seat_num, color, image_url, daily_rate, location, rating, description, status FROM cars "@;
    lemma_count_concat(head, w, '?');
    lemma_count_concat(head + w, " "@, '?');
    lemma_count_concat(head + w + " "@, order_clause(q.sort), '?');
    lemma_count_concat(head + w + " "@ + order_clause(q.sort), " LIMIT ? OFFSET ?"@, '?');
}

/// A minimum daily rate is always filtered for as a minimum and bound to its
/// value, whatever the other filters: the clause `daily_rate >= ?` comes
/// right after the free-cars clause (where a period is given), and the value
/// bound to its placeholder, the one after the free-cars clause's two
/// placeholders, is the minimum in decimal.
pub proof fn law_min_rate_filter(q: CarQuery)
    requires
        q.min_daily_rate is Some,
    ensures
        ({
            let period = q.rental_date is Some && q.return_date is Some;
            let i: int = if period { 1 } else { 0 };
            let j: int = if period { 2 } else { 0 };
            &&& car_filter_clauses(q)[i] == "daily_rate >= ?"@
            &&& total_count(car_filter_clauses(q).take(i), '?') == j
            &&& car_filter_params(q)[j] == signed_decimal(q.min_daily_rate.unwrap() as int)
        }),
{
    lemma_clause_literal_marks();
    let period = q.rental_date is Some && q.return_date is Some;
    let a = optional_clause(period, availability_clause());
    assert(car_filter_clauses(q).take(a.len() as int) =~= a);
    lemma_total_count_optional(period, availability_clause(), '?');
}

/// A maximum daily rate is always filtered for as a maximum and bound to its
/// value, whatever the other filters: the clause `daily_rate <= ?` comes
/// right after the free-cars clause and the minimum's clause (each where
/// given), and the value bound to its placeholder, the one after theirs, is
/// the maximum in decimal.
pub proof fn law_max_rate_filter(q: CarQuery)
    requires
        q.max_daily_rate is Some,
    ensures
        ({
            let period = q.rental_date is Some && q.return_date is Some;
            let with_min = q.min_daily_rate is Some;
            let i: int = (if period { 1int } else { 0int }) + (if with_min { 1int } else { 0int });
            let j: int = (if period { 2int } else { 0int }) + (if with_min { 1int } else { 0int });
            &&& car_filter_clauses(q)[i] == "daily_rate <= ?"@
            &&& total_count(car_filter_clauses(q).take(i), '?') == j
            &&& car_filter_params(q)[j] == signed_decimal(q.max_daily_rate.unwrap() as int)
        }),
{
    lemma_clause_literal_marks();
    let period = q.rental_date is Some && q.return_date is Some;
    let with_min = q.min_daily_rate is Some;
    let a = optional_clause(period, availability_clause());
    let b = optional_clause(with_min, "daily_rate >= ?"@);
    assert(car_filter_clauses(q).take((a + b).len() as int) =~= a + b);
    lemma_total_count_optional(period, availability_clause(), '?');
    lemma_total_count_optional(with_min, "daily_rate >= ?"@, '?');
    lemma_total_count_concat(a, b, '?');
}

} // verus!
