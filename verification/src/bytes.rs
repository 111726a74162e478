//! Verified byte-string utilities used by the log decoder: prefix and
//! substring search, whitespace-delimited fields, trimming, and decimal
//! parsing. Log lines arrive as UTF-8 text; all matching here is on their
//! bytes, with ASCII whitespace (the only kind the upstream feed emits).

use vstd::prelude::*;
use vstd::slice::{slice_subrange, slice_to_vec};

verus! {

/// ASCII whitespace: space, tab, line feed, vertical tab, form feed,
/// carriage return.
pub open spec fn is_ws(b: u8) -> bool {
    b == 32 || b == 9 || b == 10 || b == 11 || b == 12 || b == 13
}

/// `p` occurs in `s` at position `i`.
pub open spec fn match_at(s: Seq<u8>, p: Seq<u8>, i: int) -> bool {
    0 <= i && i + p.len() <= s.len() && s.subrange(i, i + p.len() as int) == p
}

/// Position of the first occurrence of `p` in `s`, if any.
pub open spec fn find_first(s: Seq<u8>, p: Seq<u8>) -> Option<int>
    decreases s.len(),
{
    if p.len() > s.len() {
        None
    } else if s.subrange(0, p.len() as int) == p {
        Some(0int)
    } else if s.len() == 0 {
        None
    } else {
        match find_first(s.drop_first(), p) {
            Some(i) => Some(i + 1),
            None => None,
        }
    }
}

/// `p` occurs somewhere in `s`.
pub open spec fn seq_has(s: Seq<u8>, p: Seq<u8>) -> bool {
    find_first(s, p) is Some
}

/// `p` is a prefix of `s`.
pub open spec fn is_prefix_of(p: Seq<u8>, s: Seq<u8>) -> bool {
    p.len() <= s.len() && s.subrange(0, p.len() as int) == p
}

/// `find_first` returns the least position at which `p` matches, or `None`
/// when `p` matches nowhere.
pub proof fn lemma_find_first(s: Seq<u8>, p: Seq<u8>)
    ensures
        match find_first(s, p) {
            Some(i) => match_at(s, p, i) && forall|j: int| 0 <= j < i ==> !match_at(s, p, j),
            None => forall|j: int| !match_at(s, p, j),
        },
    decreases s.len(),
{
    if p.len() > s.len() {
        assert(forall|j: int| match_at(s, p, j) ==> j + p.len() <= s.len());
    } else if s.subrange(0, p.len() as int) == p {
    } else if s.len() == 0 {
        assert(forall|j: int| match_at(s, p, j) ==> j == 0);
    } else {
        lemma_find_first(s.drop_first(), p);
        let t = s.drop_first();
        assert forall|j: int| #[trigger] match_at(s, p, j) && j >= 1 implies match_at(
            t,
            p,
            j - 1,
        ) by {
            assert forall|x: int| 0 <= x < p.len() implies #[trigger] t.subrange(j - 1, j - 1
                + p.len() as int)[x] == s.subrange(j, j + p.len() as int)[x] by {
                assert(t[j - 1 + x] == s[j + x]);
            }
            assert(t.subrange(j - 1, j - 1 + p.len() as int) =~= s.subrange(
                j,
                j + p.len() as int,
            ));
        }
        assert forall|j: int| #[trigger] match_at(t, p, j) implies match_at(s, p, j + 1) by {
            assert forall|x: int| 0 <= x < p.len() implies #[trigger] t.subrange(j, j
                + p.len() as int)[x] == s.subrange(j + 1, j + 1 + p.len() as int)[x] by {
                assert(t[j + x] == s[j + 1 + x]);
            }
            assert(t.subrange(j, j + p.len() as int) =~= s.subrange(j + 1, j + 1 + p.len() as int));
        }
        assert(!match_at(s, p, 0));
    }
}

/// Whether `p` matches `s` at position `i`, by comparing bytes.
pub fn eq_at(s: &[u8], p: &[u8], i: usize) -> (r: bool)
    requires
        i + p@.len() <= s@.len(),
    ensures
        r == match_at(s@, p@, i as int),
{
    let n: usize = p.len();
    let sl: usize = s.len();
    let mut j: usize = 0;
    while j < n
        invariant
            n == p@.len(),
            sl == s@.len(),
            i + n <= sl,
            0 <= j <= n,
            forall|k: int| 0 <= k < j ==> s@[i + k] == p@[k],
        decreases n - j,
    {
        if s[i + j] != p[j] {
            assert(s@.subrange(i as int, i + p@.len() as int)[j as int] == s@[i + j]);
            assert(!match_at(s@, p@, i as int));
            return false;
        }
        j = j + 1;
    }
    assert forall|x: int| 0 <= x < p@.len() implies #[trigger] s@.subrange(i as int, i
        + p@.len() as int)[x] == p@[x] by {
        assert(s@[i + x] == p@[x]);
    }
    assert(s@.subrange(i as int, i + p@.len() as int) =~= p@);
    true
}

/// Position of the first occurrence of `p` in `s`, scanning left to right.
pub fn find_seq(s: &[u8], p: &[u8]) -> (r: Option<usize>)
    ensures
        match r {
            Some(i) => find_first(s@, p@) == Some(i as int),
            None => find_first(s@, p@) is None,
        },
{
    proof {
        lemma_find_first(s@, p@);
    }
    if p.len() > s.len() {
        return None;
    }
    let end: usize = s.len() - p.len();
    let mut i: usize = 0;
    loop
        invariant
            p@.len() <= s@.len(),
            end == s@.len() - p@.len(),
            0 <= i <= end,
            forall|j: int| 0 <= j < i ==> !match_at(s@, p@, j),
        ensures
            forall|j: int| 0 <= j <= end ==> !match_at(s@, p@, j),
        decreases end - i,
    {
        if eq_at(s, p, i) {
            proof {
                lemma_find_first(s@, p@);
            }
            return Some(i);
        }
        if i == end {
            break;
        }
        i = i + 1;
    }
    proof {
        lemma_find_first(s@, p@);
        assert(forall|j: int| match_at(s@, p@, j) ==> 0 <= j <= end);
    }
    None
}

/// Whether `p` occurs anywhere in `s`.
pub fn contains_bytes(s: &[u8], p: &[u8]) -> (r: bool)
    ensures
        r == seq_has(s@, p@),
{
    match find_seq(s, p) {
        Some(_) => true,
        None => false,
    }
}

/// Whether `s` starts with `p`.
pub fn starts_with_bytes(s: &[u8], p: &[u8]) -> (r: bool)
    ensures
        r == is_prefix_of(p@, s@),
{
    if p.len() > s.len() {
        return false;
    }
    eq_at(s, p, 0)
}

/// Length of the initial run of non-whitespace bytes.
pub open spec fn run_len(s: Seq<u8>) -> nat
    decreases s.len(),
{
    if s.len() == 0 || is_ws(s[0]) {
        0
    } else {
        1 + run_len(s.drop_first())
    }
}

/// `run_len` counts exactly the leading non-whitespace bytes.
pub proof fn lemma_run_len(s: Seq<u8>)
    ensures
        run_len(s) <= s.len(),
        forall|k: int| 0 <= k < run_len(s) ==> !is_ws(s[k]),
        run_len(s) < s.len() ==> is_ws(s[run_len(s) as int]),
    decreases s.len(),
{
    if s.len() == 0 || is_ws(s[0]) {
    } else {
        lemma_run_len(s.drop_first());
        assert forall|k: int| 0 <= k < run_len(s) implies !is_ws(s[k]) by {
            if k >= 1 {
                assert(s.drop_first()[k - 1] == s[k]);
            }
        }
        if run_len(s) < s.len() {
            assert(s.drop_first()[run_len(s) - 1] == s[run_len(s) as int]);
        }
    }
}

/// The maximal whitespace-separated runs of `s`, in order: what
/// `split_whitespace` yields on the corresponding text.
pub open spec fn ws_fields(s: Seq<u8>) -> Seq<Seq<u8>>
    decreases s.len(),
    via ws_fields_decreases
{
    if s.len() == 0 {
        Seq::empty()
    } else if is_ws(s[0]) {
        ws_fields(s.drop_first())
    } else {
        seq![s.subrange(0, run_len(s) as int)] + ws_fields(
            s.subrange(run_len(s) as int, s.len() as int),
        )
    }
}

#[via_fn]
proof fn ws_fields_decreases(s: Seq<u8>) {
    if s.len() > 0 && !is_ws(s[0]) {
        lemma_run_len(s);
        assert(run_len(s) >= 1);
    }
}

/// A run of `m` leading non-whitespace bytes followed by a boundary pins
/// `run_len` down to `m`.
pub proof fn lemma_run_len_is(s: Seq<u8>, m: int)
    requires
        0 <= m <= s.len(),
        forall|k: int| 0 <= k < m ==> !is_ws(s[k]),
        m == s.len() || is_ws(s[m]),
    ensures
        run_len(s) == m,
    decreases s.len(),
{
    if m == 0 {
    } else {
        assert(!is_ws(s[0]));
        assert forall|k: int| 0 <= k < m - 1 implies !is_ws(s.drop_first()[k]) by {
            assert(s.drop_first()[k] == s[k + 1]);
        }
        if m - 1 < s.drop_first().len() {
            assert(s.drop_first()[m - 1] == s[m]);
        }
        lemma_run_len_is(s.drop_first(), m - 1);
    }
}

/// Executable form of `is_ws`.
pub fn is_ws_byte(b: u8) -> (r: bool)
    ensures
        r == is_ws(b),
{
    b == 32 || b == 9 || b == 10 || b == 11 || b == 12 || b == 13
}

/// The `n`-th whitespace-separated field of `s`, as `split_whitespace().nth(n)`
/// sees it.
pub fn nth_field(s: &[u8], n: usize) -> (r: Option<Vec<u8>>)
    ensures
        match r {
            Some(v) => n < ws_fields(s@).len() && v@ == ws_fields(s@)[n as int],
            None => ws_fields(s@).len() <= n,
        },
{
    let ghost all = ws_fields(s@);
    let mut i: usize = 0;
    let mut k: usize = 0;
    proof {
        assert(s@.skip(0) =~= s@);
        assert(all.skip(0) =~= all);
    }
    while i < s.len()
        invariant
            0 <= i <= s@.len(),
            k <= n,
            all == ws_fields(s@),
            k <= all.len(),
            all.skip(k as int) == ws_fields(s@.skip(i as int)),
        decreases s@.len() - i,
    {
        let ghost rest = s@.skip(i as int);
        if is_ws_byte(s[i]) {
            proof {
                assert(rest[0] == s@[i as int]);
                assert(rest.drop_first() =~= s@.skip(i + 1));
            }
            i = i + 1;
        } else {
            // scan to the end of the current run
            let mut j: usize = i;
            while j < s.len() && !is_ws_byte(s[j])
                invariant
                    i <= j <= s@.len(),
                    forall|k2: int| i <= k2 < j ==> !is_ws(s@[k2]),
                decreases s@.len() - j,
            {
                j = j + 1;
            }
            proof {
                assert(rest[0] == s@[i as int]);
                assert forall|k2: int| 0 <= k2 < j - i implies !is_ws(rest[k2]) by {
                    assert(rest[k2] == s@[i + k2]);
                }
                if j < s@.len() {
                    assert(rest[j - i] == s@[j as int]);
                }
                lemma_run_len_is(rest, j - i);
                assert(rest.subrange(0, (j - i) as int) =~= s@.subrange(i as int, j as int));
                assert(rest.subrange((j - i) as int, rest.len() as int) =~= s@.skip(j as int));
                assert(ws_fields(rest) == seq![s@.subrange(i as int, j as int)] + ws_fields(
                    s@.skip(j as int),
                ));
            }
            if k == n {
                let f = slice_subrange(s, i, j);
                let v = slice_to_vec(f);
                proof {
                    assert(all.skip(k as int).len() >= 1);
                    assert(all.skip(k as int).len() == all.len() - k);
                    assert(all.skip(k as int)[0] == s@.subrange(i as int, j as int));
                    assert(all.skip(k as int)[0] == all[0 + k as int]);
                }
                return Some(v);
            }
            proof {
                assert(all.skip(k as int).len() >= 1);
                assert(all.skip(k as int).len() == all.len() - k);
                assert(all.skip(k as int).drop_first() =~= all.skip(k as int + 1));
                assert(all.skip(k as int).drop_first() =~= ws_fields(s@.skip(j as int)));
            }
            k = k + 1;
            i = j;
        }
    }
    proof {
        assert(s@.skip(i as int) =~= Seq::<u8>::empty());
        assert(ws_fields(s@.skip(i as int)).len() == 0);
        assert(all.skip(k as int).len() == all.len() - k);
    }
    None
}

/// What `split(m).nth(1)` yields on `s`: the bytes between the end of the
/// first occurrence of `m` and the next occurrence (or the end), or `None`
/// when `m` does not occur at all.
pub open spec fn split_second(s: Seq<u8>, m: Seq<u8>) -> Option<Seq<u8>> {
    match find_first(s, m) {
        Some(i) => {
            let rest = s.subrange(i + m.len(), s.len() as int);
            match find_first(rest, m) {
                Some(j) => Some(rest.subrange(0, j)),
                None => Some(rest),
            }
        },
        None => None,
    }
}

/// The segment after the first occurrence of marker `m`, up to its next
/// occurrence.
pub fn split_marker_second(s: &[u8], m: &[u8]) -> (r: Option<Vec<u8>>)
    ensures
        match r {
            Some(v) => split_second(s@, m@) == Some(v@),
            None => split_second(s@, m@) is None,
        },
{
    match find_seq(s, m) {
        Some(i) => {
            let sl: usize = s.len();
            proof {
                lemma_find_first(s@, m@);
                assert(i + m@.len() <= sl);
            }
            let start: usize = i + m.len();
            let rest = slice_subrange(s, start, s.len());
            match find_seq(rest, m) {
                Some(j) => {
                    proof {
                        lemma_find_first(rest@, m@);
                    }
                    Some(slice_to_vec(slice_subrange(rest, 0, j)))
                },
                None => Some(slice_to_vec(rest)),
            }
        },
        None => None,
    }
}

/// `s` with leading whitespace removed.
pub open spec fn trim_start_spec(s: Seq<u8>) -> Seq<u8>
    decreases s.len(),
{
    if s.len() > 0 && is_ws(s[0]) {
        trim_start_spec(s.drop_first())
    } else {
        s
    }
}

/// `s` with trailing whitespace removed.
pub open spec fn trim_end_spec(s: Seq<u8>) -> Seq<u8>
    decreases s.len(),
{
    if s.len() > 0 && is_ws(s[s.len() - 1]) {
        trim_end_spec(s.drop_last())
    } else {
        s
    }
}

/// `s` with whitespace removed from both ends, as `str::trim` does on ASCII
/// text.
pub open spec fn trim_spec(s: Seq<u8>) -> Seq<u8> {
    trim_end_spec(trim_start_spec(s))
}

proof fn lemma_trim_start_at(s: Seq<u8>, a: int)
    requires
        0 <= a <= s.len(),
        forall|k: int| 0 <= k < a ==> is_ws(s[k]),
        a == s.len() || !is_ws(s[a]),
    ensures
        trim_start_spec(s) == s.skip(a),
    decreases s.len(),
{
    if a == 0 {
        assert(s.skip(0) =~= s);
    } else {
        assert forall|k: int| 0 <= k < a - 1 implies is_ws(s.drop_first()[k]) by {
            assert(s.drop_first()[k] == s[k + 1]);
        }
        if a - 1 < s.drop_first().len() {
            assert(s.drop_first()[a - 1] == s[a]);
        }
        lemma_trim_start_at(s.drop_first(), a - 1);
        assert(s.drop_first().skip(a - 1) =~= s.skip(a));
    }
}

proof fn lemma_trim_end_at(s: Seq<u8>, b: int)
    requires
        0 <= b <= s.len(),
        forall|k: int| b <= k < s.len() ==> is_ws(s[k]),
        b == 0 || !is_ws(s[b - 1]),
    ensures
        trim_end_spec(s) == s.take(b),
    decreases s.len(),
{
    if b == s.len() {
        assert(s.take(b) =~= s);
    } else {
        assert forall|k: int| b <= k < s.drop_last().len() implies is_ws(s.drop_last()[k]) by {
            assert(s.drop_last()[k] == s[k]);
        }
        lemma_trim_end_at(s.drop_last(), b);
        assert(s.drop_last().take(b) =~= s.take(b));
    }
}

/// Remove ASCII whitespace from both ends of `s`.
pub fn trim_bytes(s: &[u8]) -> (r: Vec<u8>)
    ensures
        r@ == trim_spec(s@),
{
    let mut a: usize = 0;
    while a < s.len() && is_ws_byte(s[a])
        invariant
            0 <= a <= s@.len(),
            forall|k: int| 0 <= k < a ==> is_ws(s@[k]),
        decreases s@.len() - a,
    {
        a = a + 1;
    }
    proof {
        lemma_trim_start_at(s@, a as int);
    }
    let mut b: usize = s.len();
    while b > a && is_ws_byte(s[b - 1])
        invariant
            a <= b <= s@.len(),
            forall|k: int| b <= k < s@.len() ==> is_ws(s@[k]),
        decreases b,
    {
        b = b - 1;
    }
    proof {
        let t = s@.skip(a as int);
        assert forall|k: int| b - a <= k < t.len() implies is_ws(t[k]) by {
            assert(t[k] == s@[a + k]);
        }
        if b > a {
            assert(t[b - a - 1] == s@[b - 1]);
        }
        lemma_trim_end_at(t, b - a);
        assert(t.take(b - a) =~= s@.subrange(a as int, b as int));
    }
    slice_to_vec(slice_subrange(s, a, b))
}

/// Decimal digit.
pub open spec fn is_digit(b: u8) -> bool {
    48 <= b && b <= 57
}

/// Value of a decimal digit string, most significant digit first.
pub open spec fn digits_val(s: Seq<u8>) -> int
    decreases s.len(),
{
    if s.len() == 0 {
        0
    } else {
        digits_val(s.drop_last()) * 10 + (s[s.len() - 1] - 48)
    }
}

/// Every byte is a decimal digit.
pub open spec fn all_digits(s: Seq<u8>) -> bool {
    forall|i: int| 0 <= i < s.len() ==> is_digit(s[i])
}

/// The digit part of a decimal number: everything after an optional
/// leading `+`.
pub open spec fn parse_body(s: Seq<u8>) -> Seq<u8> {
    if s.len() > 0 && s[0] == 43 {
        s.drop_first()
    } else {
        s
    }
}

/// What `str::parse::<u64>` yields on this text: an optional leading `+`,
/// then one or more digits whose value fits in a `u64`.
pub open spec fn parse_u64_spec(s: Seq<u8>) -> Option<u64> {
    let body = parse_body(s);
    if body.len() > 0 && all_digits(body) && digits_val(body) <= u64::MAX as int {
        Some(digits_val(body) as u64)
    } else {
        None
    }
}

proof fn lemma_digits_val_nonneg(s: Seq<u8>)
    requires
        forall|i: int| 0 <= i < s.len() ==> is_digit(s[i]),
    ensures
        digits_val(s) >= 0,
    decreases s.len(),
{
    if s.len() > 0 {
        assert forall|i: int| 0 <= i < s.drop_last().len() implies is_digit(s.drop_last()[i]) by {
            assert(s.drop_last()[i] == s[i]);
        }
        lemma_digits_val_nonneg(s.drop_last());
    }
}

proof fn lemma_digits_val_take_le(s: Seq<u8>, j: int)
    requires
        0 <= j <= s.len(),
        forall|i: int| 0 <= i < s.len() ==> is_digit(s[i]),
    ensures
        digits_val(s.take(j)) <= digits_val(s),
    decreases s.len() - j,
{
    if j == s.len() {
        assert(s.take(j) =~= s);
    } else {
        lemma_digits_val_take_le(s, j + 1);
        let t = s.take(j + 1);
        assert(t.drop_last() =~= s.take(j));
        assert forall|i: int| 0 <= i < s.take(j).len() implies is_digit(s.take(j)[i]) by {
            assert(s.take(j)[i] == s[i]);
        }
        lemma_digits_val_nonneg(s.take(j));
        assert(t[t.len() - 1] == s[j]);
        assert(digits_val(t) == digits_val(s.take(j)) * 10 + (s[j] - 48));
        assert(digits_val(s.take(j)) * 10 >= digits_val(s.take(j)));
    }
}

/// Parse a decimal `u64` from `s`, with the acceptance of
/// `str::parse::<u64>`: ASCII digits with an optional leading `+`.
pub fn parse_u64(s: &[u8]) -> (r: Option<u64>)
    ensures
        r == parse_u64_spec(s@),
{
    let has_plus: bool = s.len() > 0 && s[0] == 43;
    let start: usize = if has_plus {
        1
    } else {
        0
    };
    let ghost body = parse_body(s@);
    proof {
        assert(body =~= s@.skip(start as int));
    }
    if s.len() == start {
        return None;
    }
    let mut acc: u64 = 0;
    let mut j: usize = start;
    while j < s.len()
        invariant
            start <= j <= s@.len(),
            start <= 1,
            body == parse_body(s@),
            body == s@.skip(start as int),
            body.len() == s@.len() - start,
            forall|i: int| 0 <= i < j - start ==> is_digit(body[i]),
            acc as int == digits_val(body.take(j - start)),
        decreases s@.len() - j,
    {
        let b = s[j];
        proof {
            assert(body[j - start] == s@[j as int]);
        }
        if b < 48 || b > 57 {
            proof {
                assert(!is_digit(body[j - start]));
                assert(!all_digits(body));
            }
            return None;
        }
        let d: u64 = (b - 48) as u64;
        let wide: u128 = acc as u128 * 10 + d as u128;
        proof {
            let t = body.take(j + 1 - start);
            assert(t.drop_last() =~= body.take(j - start));
            assert(t[t.len() - 1] == body[j - start]);
            assert(digits_val(t) == digits_val(body.take(j - start)) * 10 + (b - 48));
        }
        if wide > u64::MAX as u128 {
            proof {
                assert(digits_val(body.take(j + 1 - start)) > u64::MAX as int);
                if all_digits(body) {
                    lemma_digits_val_take_le(body, j + 1 - start);
                    assert(digits_val(body) > u64::MAX as int);
                }
            }
            return None;
        }
        acc = wide as u64;
        j = j + 1;
    }
    proof {
        assert(body.take(body.len() as int) =~= body);
        assert(all_digits(body));
    }
    Some(acc)
}

/// Whether two byte strings are equal.
pub fn eq_bytes(a: &[u8], b: &[u8]) -> (r: bool)
    ensures
        r == (a@ == b@),
{
    if a.len() != b.len() {
        return false;
    }
    let r = eq_at(a, b, 0);
    proof {
        if r {
            assert(a@.subrange(0, b@.len() as int) =~= a@);
        } else {
            if a@ == b@ {
                assert(a@.subrange(0, b@.len() as int) =~= b@);
            }
        }
    }
    r
}

} // verus!

