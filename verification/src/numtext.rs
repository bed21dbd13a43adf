//! Decimal text for integers: rendering and parsing.

use vstd::prelude::*;

verus! {

/// The ASCII digit for `d`, for `d` in `0..10`.
pub open spec fn digit_char(d: nat) -> char {
    if d == 0 { '0' }
    else if d == 1 { '1' }
    else if d == 2 { '2' }
    else if d == 3 { '3' }
    else if d == 4 { '4' }
    else if d == 5 { '5' }
    else if d == 6 { '6' }
    else if d == 7 { '7' }
    else if d == 8 { '8' }
    else { '9' }
}

/// The decimal representation of `n`, without leading zeros (`"0"` for zero).
pub open spec fn decimal_digits(n: nat) -> Seq<char>
    decreases n,
{
    if n < 10 {
        seq![digit_char(n)]
    } else {
        decimal_digits(n / 10).push(digit_char(n % 10))
    }
}

/// The decimal representation of `i`, with a leading `-` when negative.
pub open spec fn signed_decimal(i: int) -> Seq<char> {
    if i < 0 {
        seq!['-'] + decimal_digits((-i) as nat)
    } else {
        decimal_digits(i as nat)
    }
}

fn digit_text(d: u64) -> (res: &'static str)
    requires
        d < 10,
    ensures
        res@ == seq![digit_char(d as nat)],
{
    proof {
        reveal_strlit("0");
        reveal_strlit("1");
        reveal_strlit("2");
        reveal_strlit("3");
        reveal_strlit("4");
        reveal_strlit("5");
        reveal_strlit("6");
        reveal_strlit("7");
        reveal_strlit("8");
        reveal_strlit("9");
    }
    if d == 0 { "0" }
    else if d == 1 { "1" }
    else if d == 2 { "2" }
    else if d == 3 { "3" }
    else if d == 4 { "4" }
    else if d == 5 { "5" }
    else if d == 6 { "6" }
    else if d == 7 { "7" }
    else if d == 8 { "8" }
    else { "9" }
}

/// Renders `n` in decimal.
pub fn u64_to_text(n: u64) -> (res: String)
    ensures
        res@ == decimal_digits(n as nat),
{
    if n == 0 {
        return String::from_str(digit_text(0));
    }
    let mut m: u64 = n;
    let mut s = String::new();
    while m > 0
        invariant
            decimal_digits(n as nat) =~= (if m == 0 { Seq::<char>::empty() } else {
                decimal_digits(m as nat)
            }) + s@,
        decreases m,
    {
        let d = digit_text(m % 10);
        let prefixed = String::from_str(d).concat(s.as_str());
        s = prefixed;
        m = m / 10;
    }
    s
}

/// Renders `i` in decimal, with a leading `-` when negative.
pub fn i64_to_text(i: i64) -> (res: String)
    ensures
        res@ == signed_decimal(i as int),
{
    if i < 0 {
        let magnitude: u64 = ((-(i + 1)) as u64) + 1;
        let digits = u64_to_text(magnitude);
        proof {
            reveal_strlit("-");
        }
        String::from_str("-").concat(digits.as_str())
    } else {
        u64_to_text(i as u64)
    }
}


/// Whether `c` is one of the ASCII digits `0` to `9`.
pub open spec fn is_ascii_digit(c: char) -> bool {
    48 <= (c as int) && (c as int) <= 57
}

/// Whether `s` is a non-empty run of ASCII digits.
pub open spec fn is_digit_run(s: Seq<char>) -> bool {
    s.len() > 0 && forall|i: int| 0 <= i < s.len() ==> is_ascii_digit(#[trigger] s[i])
}

/// The number that a run of ASCII digits denotes in decimal.
pub open spec fn digits_value(s: Seq<char>) -> nat
    decreases s.len(),
{
    if s.len() == 0 {
        0
    } else {
        digits_value(s.drop_last()) * 10 + ((s.last() as int) - 48) as nat
    }
}

/// The `i32` that `s` spells as Rust's `str::parse::<i32>` reads it: an
/// optional `+` or `-`, then one or more ASCII digits, with a value in range.
pub open spec fn i32_from_text(s: Seq<char>) -> Option<int> {
    if s.len() > 0 && (s[0] == '-' || s[0] == '+') {
        let body = s.drop_first();
        let v: int = if s[0] == '-' { -digits_value(body) } else { digits_value(body) as int };
        if is_digit_run(body) && i32::MIN <= v <= i32::MAX { Some(v) } else { None }
    } else {
        if is_digit_run(s) && digits_value(s) <= i32::MAX { Some(digits_value(s) as int) } else { None }
    }
}

proof fn lemma_digits_value_prefix(s: Seq<char>, k: int)
    requires
        0 <= k <= s.len(),
        forall|i: int| 0 <= i < s.len() ==> is_ascii_digit(#[trigger] s[i]),
    ensures
        digits_value(s.take(k)) <= digits_value(s),
    decreases s.len() - k,
{
    if k < s.len() {
        lemma_digits_value_prefix(s, k + 1);
        let t = s.take(k + 1);
        assert(t.drop_last() =~= s.take(k));
        assert(is_ascii_digit(s[k]));
    } else {
        assert(s.take(k) =~= s);
    }
}

/// Reads a decimal `i32` as `str::parse::<i32>` does; `None` where that
/// returns an error.
pub fn parse_i32(text: &str) -> (res: Option<i32>)
    ensures
        res matches Some(v) ==> i32_from_text(text@) == Some(v as int),
        res is None ==> i32_from_text(text@) is None,
{
    let n = text.unicode_len();
    if n == 0 {
        return None;
    }
    let first = text.get_char(0);
    let negative = first == '-';
    let start: usize = if first == '-' || first == '+' { 1 } else { 0 };
    if start == n {
        return None;
    }
    let ghost body = text@.subrange(start as int, n as int);
    proof {
        if start == 1 {
            assert(body =~= text@.drop_first());
        } else {
            assert(body =~= text@);
        }
    }
    let mut acc: u64 = 0;
    let mut k: usize = start;
    while k < n
        invariant
            n == text@.len(),
            start <= k <= n,
            start < n,
            body == text@.subrange(start as int, n as int),
            (start == 1) == (text@[0] == '-' || text@[0] == '+'),
            start <= 1,
            start == 1 ==> body == text@.drop_first(),
            start == 0 ==> body == text@,
            negative == (text@[0] == '-'),
            forall|i: int| 0 <= i < k - start ==> is_ascii_digit(#[trigger] body[i]),
            acc as nat == digits_value(body.take(k - start)),
            acc <= 2147483648,
        decreases n - k,
    {
        let c = text.get_char(k);
        let code = c as u32;
        if code < 48 || code > 57 {
            assert(!is_ascii_digit(body[k - start]));
            assert(!is_digit_run(body));
            return None;
        }
        proof {
            let t = body.take(k + 1 - start);
            assert(t.drop_last() =~= body.take(k - start));
            assert(t.last() == c);
        }
        acc = acc * 10 + (code - 48) as u64;
        if acc > 2147483648 {
            proof {
                if is_digit_run(body) {
                    lemma_digits_value_prefix(body, k + 1 - start);
                }
            }
            return None;
        }
        k = k + 1;
    }
    assert(body.take(n - start) =~= body);
    if negative {
        Some((0 - (acc as i64)) as i32)
    } else if acc <= 2147483647 {
        Some(acc as i32)
    } else {
        None
    }
}


/// The digits of `n` are a run of ASCII digits that denotes `n`.
pub proof fn lemma_decimal_digits_denote(n: nat)
    ensures
        is_digit_run(decimal_digits(n)),
        digits_value(decimal_digits(n)) == n,
    decreases n,
{
    let s = decimal_digits(n);
    if n < 10 {
        assert(s.drop_last() =~= Seq::<char>::empty());
        assert(digits_value(s.drop_last()) == 0);
    } else {
        lemma_decimal_digits_denote(n / 10);
        let head = decimal_digits(n / 10);
        assert(s.drop_last() =~= head);
        assert forall|i: int| 0 <= i < s.len() implies is_ascii_digit(#[trigger] s[i]) by {
            if i < head.len() {
                assert(s[i] == head[i]);
            }
        }
    }
}

/// Different numbers have different decimal representations.
pub proof fn lemma_decimal_digits_injective(a: nat, b: nat)
    requires
        decimal_digits(a) == decimal_digits(b),
    ensures
        a == b,
{
    lemma_decimal_digits_denote(a);
    lemma_decimal_digits_denote(b);
}

/// Rendering an `i32` in decimal and reading it back as `str::parse::<i32>`
/// does gives the same number: `parse_i32` undoes `i64_to_text` on every
/// `i32`.
pub proof fn law_i32_text_roundtrip(x: i32)
    ensures
        i32_from_text(signed_decimal(x as int)) == Some(x as int),
{
    if x < 0 {
        let d = decimal_digits((-x) as nat);
        lemma_decimal_digits_denote((-x) as nat);
        let s = signed_decimal(x as int);
        assert(s.drop_first() =~= d);
        assert(s[0] == '-');
    } else {
        let d = decimal_digits(x as nat);
        lemma_decimal_digits_denote(x as nat);
        assert(is_ascii_digit(d[0]));
    }
}

/// A signed decimal is never empty, and past its first character holds only
/// digits; its first character is a digit or `-`.
pub proof fn lemma_signed_decimal_shape(i: int)
    ensures
        signed_decimal(i).len() >= 1,
        forall|k: int| 1 <= k < signed_decimal(i).len() ==> is_ascii_digit(#[trigger] signed_decimal(i)[k]),
        is_ascii_digit(signed_decimal(i)[0]) || signed_decimal(i)[0] == '-',
        (signed_decimal(i)[0] == '-') == (i < 0),
{
    if i < 0 {
        let d = decimal_digits((-i) as nat);
        lemma_decimal_digits_denote((-i) as nat);
        assert forall|k: int| 1 <= k < signed_decimal(i).len() implies is_ascii_digit(#[trigger] signed_decimal(i)[k]) by {
            assert(signed_decimal(i)[k] == d[k - 1]);
        }
    } else {
        lemma_decimal_digits_denote(i as nat);
    }
}

/// Different integers have different signed decimal representations.
pub proof fn lemma_signed_decimal_injective(a: int, b: int)
    requires
        signed_decimal(a) == signed_decimal(b),
    ensures
        a == b,
{
    lemma_signed_decimal_shape(a);
    lemma_signed_decimal_shape(b);
    if a < 0 {
        assert(signed_decimal(a).drop_first() =~= decimal_digits((-a) as nat));
        assert(signed_decimal(b).drop_first() =~= decimal_digits((-b) as nat));
        lemma_decimal_digits_injective((-a) as nat, (-b) as nat);
    } else {
        lemma_decimal_digits_injective(a as nat, b as nat);
    }
}

} // verus!
