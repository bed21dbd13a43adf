//! Text helpers: splitting on a separator, joining, searching, lower-casing.

use vstd::prelude::*;

verus! {

/// The pieces of `s` between occurrences of `sep`, as `str::split` with a
/// single `char` yields them (always at least one piece).
pub open spec fn split_pieces(s: Seq<char>, sep: char) -> Seq<Seq<char>>
    decreases s.len(),
{
    if s.len() == 0 {
        seq![Seq::<char>::empty()]
    } else {
        let rest = split_pieces(s.drop_last(), sep);
        if s.last() == sep {
            rest.push(Seq::<char>::empty())
        } else {
            rest.update(rest.len() - 1, rest.last().push(s.last()))
        }
    }
}

/// The pieces laid end to end with `sep` between each neighbouring pair.
pub open spec fn joined(pieces: Seq<Seq<char>>, sep: Seq<char>) -> Seq<char>
    decreases pieces.len(),
{
    if pieces.len() == 0 {
        Seq::<char>::empty()
    } else if pieces.len() == 1 {
        pieces[0]
    } else {
        joined(pieces.drop_last(), sep) + sep + pieces.last()
    }
}

/// The character views of a vector of strings.
pub open spec fn texts(v: Seq<String>) -> Seq<Seq<char>> {
    v.map_values(|t: String| t@)
}

/// Whether `needle` occurs as a contiguous run in `hay`.
pub open spec fn occurs_in(needle: Seq<char>, hay: Seq<char>) -> bool {
    exists|i: int|
        0 <= i && i + needle.len() <= hay.len() && #[trigger] hay.subrange(i, i + needle.len())
            == needle
}

/// How many times `c` occurs in `s`.
pub open spec fn count_char(s: Seq<char>, c: char) -> nat
    decreases s.len(),
{
    if s.len() == 0 {
        0
    } else {
        count_char(s.drop_last(), c) + (if s.last() == c { 1nat } else { 0nat })
    }
}

/// How many times `c` occurs in all the pieces together.
pub open spec fn total_count(pieces: Seq<Seq<char>>, c: char) -> nat
    decreases pieces.len(),
{
    if pieces.len() == 0 {
        0
    } else {
        total_count(pieces.drop_last(), c) + count_char(pieces.last(), c)
    }
}

/// Occurrences add up over a concatenation.
pub proof fn lemma_count_concat(a: Seq<char>, b: Seq<char>, c: char)
    ensures
        count_char(a + b, c) == count_char(a, c) + count_char(b, c),
    decreases b.len(),
{
    if b.len() == 0 {
        assert(a + b =~= a);
    } else {
        lemma_count_concat(a, b.drop_last(), c);
        assert((a + b).drop_last() =~= a + b.drop_last());
    }
}

/// A text in which `c` never appears holds no occurrence of it.
pub proof fn lemma_count_absent(s: Seq<char>, c: char)
    requires
        forall|i: int| 0 <= i < s.len() ==> s[i] != c,
    ensures
        count_char(s, c) == 0,
    decreases s.len(),
{
    if s.len() > 0 {
        lemma_count_absent(s.drop_last(), c);
    }
}

/// The occurrences of `c` before position `k`, at it, and after it.
proof fn lemma_count_around(s: Seq<char>, c: char, k: int)
    requires
        0 <= k < s.len(),
    ensures
        count_char(s, c) == count_char(s.subrange(0, k), c) + (if s[k] == c { 1int } else { 0int })
            + count_char(s.subrange(k + 1, s.len() as int), c),
{
    let (before, at, after) = (s.subrange(0, k), s.subrange(k, k + 1), s.subrange(k + 1, s.len() as int));
    assert(s =~= before + at + after);
    lemma_count_concat(before, at, c);
    lemma_count_concat(before + at, after, c);
    assert(at.drop_last() =~= Seq::<char>::empty());
    assert(at.last() == s[k]);
    assert(count_char(at.drop_last(), c) == 0);
    assert(count_char(at, c) == (if s[k] == c { 1nat } else { 0nat }));
}

/// A text in which `c` appears at position `k` alone holds it once.
pub proof fn lemma_count_once(s: Seq<char>, c: char, k: int)
    requires
        0 <= k < s.len(),
        s[k] == c,
        forall|i: int| 0 <= i < s.len() && i != k ==> s[i] != c,
    ensures
        count_char(s, c) == 1,
{
    lemma_count_around(s, c, k);
    lemma_count_absent(s.subrange(0, k), c);
    lemma_count_absent(s.subrange(k + 1, s.len() as int), c);
}

/// A text in which `c` appears at positions `j` and `k` alone holds it
/// twice.
pub proof fn lemma_count_twice(s: Seq<char>, c: char, j: int, k: int)
    requires
        0 <= j < k < s.len(),
        s[j] == c,
        s[k] == c,
        forall|i: int| 0 <= i < s.len() && i != j && i != k ==> s[i] != c,
    ensures
        count_char(s, c) == 2,
{
    lemma_count_around(s, c, k);
    lemma_count_once(s.subrange(0, k), c, j);
    lemma_count_absent(s.subrange(k + 1, s.len() as int), c);
}

/// A text in which `c` appears at positions `i`, `j` and `k` alone holds it
/// three times.
pub proof fn lemma_count_thrice(s: Seq<char>, c: char, i: int, j: int, k: int)
    requires
        0 <= i < j < k < s.len(),
        s[i] == c,
        s[j] == c,
        s[k] == c,
        forall|x: int| 0 <= x < s.len() && x != i && x != j && x != k ==> s[x] != c,
    ensures
        count_char(s, c) == 3,
{
    lemma_count_around(s, c, k);
    lemma_count_twice(s.subrange(0, k), c, i, j);
    lemma_count_absent(s.subrange(k + 1, s.len() as int), c);
}

/// Occurrences add up over a concatenation of lists of pieces.
pub proof fn lemma_total_count_concat(p: Seq<Seq<char>>, q: Seq<Seq<char>>, c: char)
    ensures
        total_count(p + q, c) == total_count(p, c) + total_count(q, c),
    decreases q.len(),
{
    if q.len() == 0 {
        assert(p + q =~= p);
    } else {
        lemma_total_count_concat(p, q.drop_last(), c);
        assert((p + q).drop_last() =~= p + q.drop_last());
    }
}

/// Joining with a separator that lacks `c` keeps the occurrences of `c` in
/// the pieces, and no more.
pub proof fn lemma_count_joined(pieces: Seq<Seq<char>>, sep: Seq<char>, c: char)
    requires
        count_char(sep, c) == 0,
    ensures
        count_char(joined(pieces, sep), c) == total_count(pieces, c),
    decreases pieces.len(),
{
    if pieces.len() == 1 {
        assert(pieces.drop_last() =~= Seq::<Seq<char>>::empty());
        assert(pieces.last() == pieces[0]);
        assert(total_count(pieces.drop_last(), c) == 0);
    } else if pieces.len() > 1 {
        lemma_count_joined(pieces.drop_last(), sep, c);
        lemma_count_concat(joined(pieces.drop_last(), sep), sep, c);
        lemma_count_concat(joined(pieces.drop_last(), sep) + sep, pieces.last(), c);
    }
}

/// Every text occurs in itself.
pub proof fn lemma_occurs_in_itself(s: Seq<char>)
    ensures
        occurs_in(s, s),
{
    assert(s.subrange(0, 0 + s.len() as int) =~= s);
}

/// Pushing a string pushes its characters onto the views.
pub proof fn lemma_texts_push(v: Seq<String>, x: String)
    ensures
        texts(v.push(x)) =~= texts(v).push(x@),
{
}

proof fn lemma_split_nonempty(s: Seq<char>, sep: char)
    ensures
        split_pieces(s, sep).len() >= 1,
    decreases s.len(),
{
    if s.len() > 0 {
        lemma_split_nonempty(s.drop_last(), sep);
    }
}

/// Splits `s` at every `sep`, as `s.split(sep).map(String::from).collect()`.
pub fn split_on(s: &str, sep: char) -> (res: Vec<String>)
    ensures
        texts(res@) == split_pieces(s@, sep),
{
    let n = s.unicode_len();
    let mut pieces: Vec<String> = Vec::new();
    let mut start: usize = 0;
    let mut k: usize = 0;
    assert(s@.take(0) =~= Seq::<char>::empty());
    assert(texts(pieces@).push(s@.subrange(0, 0)) =~= seq![Seq::<char>::empty()]);
    while k < n
        invariant
            n == s@.len(),
            start <= k <= n,
            texts(pieces@).push(s@.subrange(start as int, k as int)) =~= split_pieces(
                s@.take(k as int),
                sep,
            ),
        decreases n - k,
    {
        let c = s.get_char(k);
        proof {
            let t = s@.take(k + 1);
            assert(t.drop_last() =~= s@.take(k as int));
            assert(t.last() == c);
            lemma_split_nonempty(s@.take(k as int), sep);
        }
        if c == sep {
            let piece = String::from_str(s.substring_char(start, k));
            let ghost prev = pieces@;
            let ghost piece_text = piece@;
            pieces.push(piece);
            start = k + 1;
            assert(s@.subrange(start as int, (k + 1) as int) =~= Seq::<char>::empty());
            assert(texts(pieces@) =~= texts(prev).push(piece_text));
        } else {
            assert(s@.subrange(start as int, (k + 1) as int) =~= s@.subrange(
                start as int,
                k as int,
            ).push(c));
        }
        k = k + 1;
    }
    assert(s@.take(n as int) =~= s@);
    let last = String::from_str(s.substring_char(start, n));
    let ghost prev = pieces@;
    let ghost last_text = last@;
    pieces.push(last);
    assert(texts(pieces@) =~= texts(prev).push(last_text));
    pieces
}


/// Lays the strings end to end with `sep` between neighbours, as
/// `pieces.join(sep)` does.
pub fn join_with(pieces: &Vec<String>, sep: &str) -> (res: String)
    ensures
        res@ == joined(texts(pieces@), sep@),
{
    let mut out = String::new();
    let mut i: usize = 0;
    while i < pieces.len()
        invariant
            0 <= i <= pieces.len(),
            out@ == joined(texts(pieces@).take(i as int), sep@),
        decreases pieces.len() - i,
    {
        let ghost before = texts(pieces@).take(i as int);
        let ghost after = texts(pieces@).take(i + 1);
        assert(after.drop_last() =~= before);
        assert(after.last() == pieces@[i as int]@);
        if i == 0 {
            assert(after =~= seq![pieces@[0]@]);
            out = String::from_str(pieces[0].as_str());
        } else {
            out.append(sep);
            out.append(pieces[i].as_str());
        }
        i = i + 1;
    }
    assert(texts(pieces@).take(pieces.len() as int) =~= texts(pieces@));
    out
}

/// Whether `needle` occurs in `hay`, as `hay.contains(needle)` reports.
pub fn text_contains(hay: &str, needle: &str) -> (res: bool)
    ensures
        res == occurs_in(needle@, hay@),
{
    let n = hay.unicode_len();
    let m = needle.unicode_len();
    if m > n {
        return false;
    }
    let mut i: usize = 0;
    while i <= n - m
        invariant
            n == hay@.len(),
            m == needle@.len(),
            m <= n,
            i <= n - m,
            forall|j: int| 0 <= j < i ==> #[trigger] hay@.subrange(j, j + m) != needle@,
        decreases n - m - i,
    {
        let mut t: usize = 0;
        let mut same = true;
        while t < m && same
            invariant
                n == hay@.len(),
                m == needle@.len(),
                i + m <= n,
                t <= m,
                same ==> forall|u: int| 0 <= u < t ==> hay@[i + u] == needle@[u],
                !same ==> hay@.subrange(i as int, i + m) != needle@,
            decreases m - t + (if same { 1int } else { 0int }),
        {
            if hay.get_char(i + t) != needle.get_char(t) {
                same = false;
                assert(hay@.subrange(i as int, i + m)[t as int] != needle@[t as int]);
            } else {
                t = t + 1;
            }
        }
        if same {
            assert(hay@.subrange(i as int, i + m) =~= needle@);
            return true;
        }
        if i == n - m {
            return false;
        }
        i = i + 1;
    }
    false
}

/// What `str::to_lowercase` returns for a string with these characters.
pub uninterp spec fn lowercase_of(s: Seq<char>) -> Seq<char>;

/// Whether every character of `s` is ASCII.
pub open spec fn is_ascii_text(s: Seq<char>) -> bool {
    forall|i: int| 0 <= i < s.len() ==> (#[trigger] s[i] as int) < 128
}

/// The lower case of an ASCII character: `A` to `Z` become `a` to `z`, and
/// every other character stays.
pub open spec fn ascii_lower(c: char) -> char {
    if 65 <= (c as int) <= 90 { ((c as int) + 32) as char } else { c }
}

/// The text with each character put in ASCII lower case.
pub open spec fn ascii_lowered(s: Seq<char>) -> Seq<char> {
    s.map_values(|c: char| ascii_lower(c))
}

/// Calls `str::to_lowercase`; the contract names its result, which depends on
/// the characters of `s` alone, and states it for ASCII text, where Unicode's
/// lower case maps `A` to `Z` onto `a` to `z` and keeps every other
/// character. Of other text nothing more is stated.
#[verifier::external_body]
pub(crate) fn to_lowercase(s: &str) -> (res: String)
    ensures
        res@ == lowercase_of(s@),
        is_ascii_text(s@) ==> res@ == ascii_lowered(s@),
{
    s.to_lowercase()
}

} // verus!
