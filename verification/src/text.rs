//! Case- and whitespace-insensitive text matching.
//!
//! Publisher and path comparisons throughout the agent are ASCII
//! case-insensitive; publisher comparisons additionally ignore surrounding
//! whitespace. The spec functions here define those comparisons over
//! `Seq<char>`, and the executable helpers are proved against them.

use vstd::prelude::*;
use vstd::string::StrSliceExecFns;

verus! {

/// The ASCII case-fold of a character, as a scalar value: `A`..`Z` map to
/// `a`..`z`, everything else is unchanged.
pub open spec fn fold_u32(c: char) -> u32 {
    if 65 <= c as u32 && c as u32 <= 90 {
        ((c as u32) + 32) as u32
    } else {
        c as u32
    }
}

/// ASCII whitespace, as trimmed from publisher names.
pub open spec fn is_space(c: char) -> bool {
    c as u32 == 32 || c as u32 == 9 || c as u32 == 10 || c as u32 == 13 || c as u32 == 11
        || c as u32 == 12
}

/// Two strings are equal up to ASCII case.
pub open spec fn eq_fold(a: Seq<char>, b: Seq<char>) -> bool {
    a.len() == b.len() && (forall|i: int| 0 <= i < a.len() ==> fold_u32(a[i]) == fold_u32(b[i]))
}

/// `p` is a prefix of `s` up to ASCII case.
pub open spec fn starts_with_fold(s: Seq<char>, p: Seq<char>) -> bool {
    p.len() <= s.len() && eq_fold(s.take(p.len() as int), p)
}

/// `p` is a suffix of `s` up to ASCII case.
pub open spec fn ends_with_fold(s: Seq<char>, p: Seq<char>) -> bool {
    p.len() <= s.len() && eq_fold(s.skip(s.len() - p.len()), p)
}

pub open spec fn trim_start_spec(s: Seq<char>) -> Seq<char>
    decreases s.len(),
{
    if s.len() > 0 && is_space(s[0]) {
        trim_start_spec(s.drop_first())
    } else {
        s
    }
}

pub open spec fn trim_end_spec(s: Seq<char>) -> Seq<char>
    decreases s.len(),
{
    if s.len() > 0 && is_space(s.last()) {
        trim_end_spec(s.drop_last())
    } else {
        s
    }
}

/// The string with leading and trailing whitespace removed.
pub open spec fn trim_spec(s: Seq<char>) -> Seq<char> {
    trim_end_spec(trim_start_spec(s))
}

pub fn fold_char(c: char) -> (r: u32)
    ensures
        r == fold_u32(c),
{
    let u = c as u32;
    if 65 <= u && u <= 90 {
        u + 32
    } else {
        u
    }
}

pub fn is_space_char(c: char) -> (r: bool)
    ensures
        r == is_space(c),
{
    let u = c as u32;
    u == 32 || u == 9 || u == 10 || u == 13 || u == 11 || u == 12
}

/// Compares `a[a_from..]` with `b` character by character, up to ASCII case.
fn eq_fold_at(a: &str, a_from: usize, a_len: usize, b: &str, b_len: usize) -> (r: bool)
    requires
        a_len == a@.len(),
        b_len == b@.len(),
        a_from + b_len <= a_len,
    ensures
        r == eq_fold(a@.subrange(a_from as int, a_from + b_len), b@),
{
    let mut i: usize = 0;
    while i < b_len
        invariant
            a_len == a@.len(),
            b_len == b@.len(),
            a_from + b_len <= a_len,
            i <= b_len,
            forall|j: int| 0 <= j < i ==> fold_u32(a@[a_from + j]) == fold_u32(b@[j]),
        decreases b_len - i,
    {
        if fold_char(a.get_char(a_from + i)) != fold_char(b.get_char(i)) {
            assert(!eq_fold(a@.subrange(a_from as int, a_from + b_len), b@)) by {
                assert(a@.subrange(a_from as int, a_from + b_len)[i as int] == a@[a_from + i]);
            }
            return false;
        }
        i += 1;
    }
    assert(eq_fold(a@.subrange(a_from as int, a_from + b_len), b@)) by {
        assert(forall|j: int|
            0 <= j < b_len ==> #[trigger] a@.subrange(a_from as int, a_from + b_len)[j]
                == a@[a_from + j]);
    }
    true
}

/// Equality up to ASCII case.
pub fn str_eq_fold(a: &str, b: &str) -> (r: bool)
    ensures
        r == eq_fold(a@, b@),
{
    let an = a.unicode_len();
    let bn = b.unicode_len();
    if an != bn {
        return false;
    }
    let r = eq_fold_at(a, 0, an, b, bn);
    assert(a@.subrange(0, an as int) =~= a@);
    r
}

/// Prefix test up to ASCII case.
pub fn str_starts_with_fold(s: &str, p: &str) -> (r: bool)
    ensures
        r == starts_with_fold(s@, p@),
{
    let sn = s.unicode_len();
    let pn = p.unicode_len();
    if pn > sn {
        return false;
    }
    let r = eq_fold_at(s, 0, sn, p, pn);
    assert(s@.subrange(0, pn as int) =~= s@.take(pn as int));
    r
}

/// Suffix test up to ASCII case.
pub fn str_ends_with_fold(s: &str, p: &str) -> (r: bool)
    ensures
        r == ends_with_fold(s@, p@),
{
    let sn = s.unicode_len();
    let pn = p.unicode_len();
    if pn > sn {
        return false;
    }
    let r = eq_fold_at(s, sn - pn, sn, p, pn);
    assert(s@.subrange(sn - pn, sn - pn + pn) =~= s@.skip(s@.len() - pn));
    r
}

proof fn lemma_trim_start_is_skip(s: Seq<char>, k: int)
    requires
        0 <= k <= s.len(),
        forall|i: int| 0 <= i < k ==> is_space(s[i]),
        k == s.len() || !is_space(s[k]),
    ensures
        trim_start_spec(s) =~= s.skip(k),
    decreases k,
{
    if k == 0 {
        assert(s.skip(0) =~= s);
    } else {
        assert(is_space(s[0]));
        lemma_trim_start_is_skip(s.drop_first(), k - 1);
        assert(s.drop_first().skip(k - 1) =~= s.skip(k));
    }
}

proof fn lemma_trim_end_is_take(s: Seq<char>, k: int)
    requires
        0 <= k <= s.len(),
        forall|i: int| k <= i < s.len() ==> is_space(s[i]),
        k == 0 || !is_space(s[k - 1]),
    ensures
        trim_end_spec(s) =~= s.take(k),
    decreases s.len() - k,
{
    if k == s.len() {
        assert(s.take(k) =~= s);
    } else {
        assert(is_space(s.last()));
        lemma_trim_end_is_take(s.drop_last(), k);
        assert(s.drop_last().take(k) =~= s.take(k));
    }
}

/// The slice of `s` with leading and trailing whitespace removed.
pub fn trim_str<'a>(s: &'a str) -> (r: &'a str)
    ensures
        r@ == trim_spec(s@),
{
    let n = s.unicode_len();
    let mut lo: usize = 0;
    while lo < n && is_space_char(s.get_char(lo))
        invariant
            n == s@.len(),
            lo <= n,
            forall|i: int| 0 <= i < lo ==> is_space(s@[i]),
        decreases n - lo,
    {
        lo += 1;
    }
    proof {
        lemma_trim_start_is_skip(s@, lo as int);
    }
    if lo == n {
        let r = s.substring_char(lo, n);
        assert(trim_start_spec(s@) =~= Seq::<char>::empty());
        assert(trim_spec(s@) =~= s@.subrange(lo as int, n as int));
        return r;
    }
    let mut hi: usize = n;
    while hi > lo && is_space_char(s.get_char(hi - 1))
        invariant
            n == s@.len(),
            lo < n,
            lo <= hi <= n,
            forall|i: int| hi <= i < n ==> is_space(s@[i]),
        decreases hi,
    {
        hi -= 1;
    }
    assert(!is_space(s@[lo as int]));
    assert(hi > lo);
    proof {
        let t = s@.skip(lo as int);
        lemma_trim_end_is_take(t, hi - lo);
        assert(t.take(hi - lo) =~= s@.subrange(lo as int, hi as int));
    }
    s.substring_char(lo, hi)
}

/// Exact (case-sensitive) string equality.
pub fn str_eq(a: &str, b: &str) -> (r: bool)
    ensures
        r == (a@ == b@),
{
    let sa = <String as vstd::string::StringExecFns>::from_str(a);
    let sb = <String as vstd::string::StringExecFns>::from_str(b);
    sa.eq(&sb)
}

/// Equality after trimming both sides, up to ASCII case: the comparison the
/// publisher allowlist uses.
pub fn str_trim_eq_fold(a: &str, b: &str) -> (r: bool)
    ensures
        r == eq_fold(trim_spec(a@), trim_spec(b@)),
{
    str_eq_fold(trim_str(a), trim_str(b))
}

/// Whether the string is empty once trimmed.
pub fn str_trim_empty(s: &str) -> (r: bool)
    ensures
        r == (trim_spec(s@).len() == 0),
{
    trim_str(s).unicode_len() == 0
}

/// Exact (case-sensitive) prefix test.
pub open spec fn starts_with_exact(s: Seq<char>, p: Seq<char>) -> bool {
    p.len() <= s.len() && s.take(p.len() as int) == p
}

pub fn str_starts_with(s: &str, p: &str) -> (r: bool)
    ensures
        r == starts_with_exact(s@, p@),
{
    let sn = s.unicode_len();
    let pn = p.unicode_len();
    if pn > sn {
        return false;
    }
    let head = s.substring_char(0, pn);
    assert(head@ =~= s@.take(pn as int));
    let r = str_eq(head, p);
    proof {
        if head@ == p@ {
            assert(s@.take(pn as int) =~= p@);
        }
    }
    r
}

pub open spec fn is_digit(c: char) -> bool {
    48 <= c as u32 && c as u32 <= 57
}

pub open spec fn all_digits(s: Seq<char>) -> bool {
    forall|i: int| 0 <= i < s.len() ==> is_digit(#[trigger] s[i])
}

/// The value of a digit string, most significant digit first.
pub open spec fn digits_val(s: Seq<char>) -> int
    decreases s.len(),
{
    if s.len() == 0 {
        0
    } else {
        digits_val(s.drop_last()) * 10 + (s.last() as u32 - 48)
    }
}

/// Decimal parsing: an optional leading `+`, then at least one digit, and a
/// value within the type's bounds.
pub open spec fn parse_u64_spec(s: Seq<char>) -> Option<u64> {
    let body = if s.len() > 0 && s[0] as u32 == 43 {
        s.drop_first()
    } else {
        s
    };
    if body.len() == 0 || !all_digits(body) {
        None
    } else if digits_val(body) > u64::MAX {
        None
    } else {
        Some(digits_val(body) as u64)
    }
}

proof fn lemma_digits_val_nonneg(s: Seq<char>)
    requires
        all_digits(s),
    ensures
        digits_val(s) >= 0,
    decreases s.len(),
{
    if s.len() > 0 {
        assert(all_digits(s.drop_last())) by {
            assert(forall|i: int| 0 <= i < s.len() - 1 ==> is_digit(#[trigger] s[i]));
        }
        lemma_digits_val_nonneg(s.drop_last());
        assert(is_digit(s.last()));
    }
}

proof fn lemma_digits_val_extend(s: Seq<char>, k: int)
    requires
        all_digits(s),
        0 <= k <= s.len(),
    ensures
        digits_val(s) >= digits_val(s.take(k)),
    decreases s.len() - k,
{
    if k == s.len() {
        assert(s.take(k) =~= s);
    } else {
        lemma_digits_val_extend(s, k + 1);
        let t = s.take(k + 1);
        assert(t.drop_last() =~= s.take(k));
        assert(t.last() == s[k]);
        assert(is_digit(s[k]));
        assert(all_digits(s.take(k))) by {
            assert(forall|i: int| 0 <= i < k ==> is_digit(#[trigger] s.take(k)[i]));
        }
        lemma_digits_val_nonneg(s.take(k));
        assert(digits_val(t) == digits_val(s.take(k)) * 10 + (s[k] as u32 - 48));
        assert(digits_val(t) >= digits_val(s.take(k)));
    }
}

/// Parses a decimal unsigned number, exactly as `parse_u64_spec` says.
pub fn parse_u64_dec(s: &str) -> (r: Option<u64>)
    ensures
        r == parse_u64_spec(s@),
{
    let n = s.unicode_len();
    let mut start: usize = 0;
    if n > 0 && s.get_char(0) as u32 == 43 {
        start = 1;
    }
    let ghost body = if start == 1 {
        s@.drop_first()
    } else {
        s@
    };
    proof {
        assert(body =~= s@.subrange(start as int, n as int));
    }
    if start == n {
        return None;
    }
    let mut acc: u64 = 0;
    let mut i: usize = start;
    while i < n
        invariant
            n == s@.len(),
            start <= i <= n,
            start <= 1,
            start < n,
            body == s@.subrange(start as int, n as int),
            body == (if start == 1 {
                s@.drop_first()
            } else {
                s@
            }),
            (start == 1) == (s@.len() > 0 && s@[0] as u32 == 43),
            all_digits(body.take(i - start)),
            acc == digits_val(body.take(i - start)),
        decreases n - i,
    {
        let c = s.get_char(i) as u32;
        let ghost pre = body.take(i - start);
        proof {
            assert(body[i - start] == s@[i as int]);
        }
        if c < 48 || c > 57 {
            proof {
                assert(!is_digit(body[i - start]));
                assert(!all_digits(body));
            }
            return None;
        }
        let d = (c - 48) as u64;
        proof {
            assert(body.take(i - start + 1).drop_last() =~= pre);
            assert(body.take(i - start + 1).last() == body[i - start]);
            assert(digits_val(body.take(i - start + 1)) == acc * 10 + d);
            assert(all_digits(body.take(i - start + 1)));
        }
        if acc > (u64::MAX - d) / 10 {
            proof {
                assert(acc * 10 + d > u64::MAX) by (nonlinear_arith)
                    requires
                        acc > (u64::MAX - d) / 10,
                        d <= 9,
                ;
                if all_digits(body) {
                    lemma_digits_val_extend(body, i - start + 1);
                    assert(digits_val(body) > u64::MAX);
                }
            }
            return None;
        }
        acc = acc * 10 + d;
        i += 1;
    }
    proof {
        assert(body.take(n - start) =~= body);
    }
    Some(acc)
}

/// Decimal parsing bounded to `u32`.
pub open spec fn parse_u32_spec(s: Seq<char>) -> Option<u32> {
    match parse_u64_spec(s) {
        Some(v) => if v <= u32::MAX {
            Some(v as u32)
        } else {
            None
        },
        None => None,
    }
}

pub fn parse_u32_dec(s: &str) -> (r: Option<u32>)
    ensures
        r == parse_u32_spec(s@),
{
    match parse_u64_dec(s) {
        Some(v) => if v <= u32::MAX as u64 {
            Some(v as u32)
        } else {
            None
        },
        None => None,
    }
}

/// Decimal parsing bounded to `u16`.
pub open spec fn parse_u16_spec(s: Seq<char>) -> Option<u16> {
    match parse_u64_spec(s) {
        Some(v) => if v <= u16::MAX {
            Some(v as u16)
        } else {
            None
        },
        None => None,
    }
}

pub fn parse_u16_dec(s: &str) -> (r: Option<u16>)
    ensures
        r == parse_u16_spec(s@),
{
    match parse_u64_dec(s) {
        Some(v) => if v <= u16::MAX as u64 {
            Some(v as u16)
        } else {
            None
        },
        None => None,
    }
}

} // verus!
