//! Small verified text utilities: ASCII case-insensitive comparison,
//! substring search, decimal rendering and whitespace tokenization.

use vstd::prelude::*;
use vstd::string::StrSliceExecFns;
use vstd::string::StringExecFns;

verus! {

/// Unicode scalar value of `c` with ASCII upper-case letters folded to
/// lower case.
pub open spec fn lower_int(c: char) -> int {
    let x = c as int;
    if 65 <= x <= 90 {
        x + 32
    } else {
        x
    }
}

/// The two sequences are equal up to ASCII case.
pub open spec fn seq_eq_ci(a: Seq<char>, b: Seq<char>) -> bool {
    a.len() == b.len() && (forall|i: int| 0 <= i < a.len() ==> lower_int(a[i]) == lower_int(b[i]))
}

/// `a` begins with `p`, up to ASCII case.
pub open spec fn ci_prefix(a: Seq<char>, p: Seq<char>) -> bool {
    a.len() >= p.len() && (forall|i: int| 0 <= i < p.len() ==> lower_int(a[i]) == lower_int(p[i]))
}

/// `n` occurs in `h` starting at index `k`.
pub open spec fn matches_at(h: Seq<char>, n: Seq<char>, k: int) -> bool {
    0 <= k && k + n.len() <= h.len() && (forall|j: int| 0 <= j < n.len() ==> h[k + j] == n[j])
}

/// `n` occurs somewhere in `h`.
pub open spec fn has_substr(h: Seq<char>, n: Seq<char>) -> bool {
    exists|k: int| matches_at(h, n, k)
}

/// `n` occurs in `h` starting at index `k`, up to ASCII case.
pub open spec fn matches_at_ci(h: Seq<char>, n: Seq<char>, k: int) -> bool {
    0 <= k && k + n.len() <= h.len() && (forall|j: int|
        0 <= j < n.len() ==> lower_int(h[k + j]) == lower_int(n[j]))
}

/// `n` occurs somewhere in `h`, up to ASCII case.
pub open spec fn has_substr_ci(h: Seq<char>, n: Seq<char>) -> bool {
    exists|k: int| matches_at_ci(h, n, k)
}

fn lower_x(c: char) -> (r: u32)
    ensures
        r == lower_int(c),
{
    let x = c as u32;
    if 65 <= x && x <= 90 {
        x + 32
    } else {
        x
    }
}

/// The two strings are equal up to ASCII case.
pub fn eq_ignore_case(a: &str, b: &str) -> (r: bool)
    ensures
        r == seq_eq_ci(a@, b@),
{
    let la = a.unicode_len();
    let lb = b.unicode_len();
    if la != lb {
        return false;
    }
    let mut i: usize = 0;
    while i < la
        invariant
            i <= la,
            la == a@.len(),
            la == b@.len(),
            forall|j: int| 0 <= j < i ==> lower_int(a@[j]) == lower_int(b@[j]),
        decreases la - i,
    {
        if lower_x(a.get_char(i)) != lower_x(b.get_char(i)) {
            return false;
        }
        i = i + 1;
    }
    true
}

/// `a` begins with `p`, up to ASCII case.
pub fn starts_with_ci(a: &str, p: &str) -> (r: bool)
    ensures
        r == ci_prefix(a@, p@),
{
    let la = a.unicode_len();
    let lp = p.unicode_len();
    if la < lp {
        return false;
    }
    let mut i: usize = 0;
    while i < lp
        invariant
            i <= lp,
            lp == p@.len(),
            la == a@.len(),
            la >= lp,
            forall|j: int| 0 <= j < i ==> lower_int(a@[j]) == lower_int(p@[j]),
        decreases lp - i,
    {
        if lower_x(a.get_char(i)) != lower_x(p.get_char(i)) {
            return false;
        }
        i = i + 1;
    }
    true
}

/// `needle` occurs in `hay` as an exact substring.
pub fn str_contains(hay: &str, needle: &str) -> (r: bool)
    ensures
        r == has_substr(hay@, needle@),
{
    let lh = hay.unicode_len();
    let ln = needle.unicode_len();
    if ln > lh {
        assert(forall|k: int| !matches_at(hay@, needle@, k));
        return false;
    }
    let mut k: usize = 0;
    while k <= lh - ln
        invariant
            lh == hay@.len(),
            ln == needle@.len(),
            ln <= lh,
            k <= lh - ln + 1,
            forall|k2: int| 0 <= k2 < k ==> !matches_at(hay@, needle@, k2),
        decreases lh + 1 - k,
    {
        let mut j: usize = 0;
        let mut hit = true;
        while j < ln
            invariant_except_break
                hit,
            invariant
                lh == hay@.len(),
                ln == needle@.len(),
                k + ln <= lh,
                j <= ln,
                hit ==> forall|j2: int| 0 <= j2 < j ==> hay@[k + j2] == needle@[j2],
            ensures
                hit ==> forall|j2: int| 0 <= j2 < j ==> hay@[k + j2] == needle@[j2],
                hit ==> j == ln,
                !hit ==> j < ln && hay@[k + j] != needle@[j as int],
            decreases ln - j,
        {
            if hay.get_char(k + j) != needle.get_char(j) {
                hit = false;
                break ;
            }
            j = j + 1;
        }
        if hit {
            assert(matches_at(hay@, needle@, k as int));
            return true;
        }
        assert(!matches_at(hay@, needle@, k as int));
        k = k + 1;
    }
    assert(forall|k2: int| !matches_at(hay@, needle@, k2));
    false
}

/// `needle` occurs in `hay` as a substring, up to ASCII case.
pub fn contains_ci(hay: &str, needle: &str) -> (r: bool)
    ensures
        r == has_substr_ci(hay@, needle@),
{
    let lh = hay.unicode_len();
    let ln = needle.unicode_len();
    if ln > lh {
        assert(forall|k: int| !matches_at_ci(hay@, needle@, k));
        return false;
    }
    let mut k: usize = 0;
    while k <= lh - ln
        invariant
            lh == hay@.len(),
            ln == needle@.len(),
            ln <= lh,
            k <= lh - ln + 1,
            forall|k2: int| 0 <= k2 < k ==> !matches_at_ci(hay@, needle@, k2),
        decreases lh + 1 - k,
    {
        let mut j: usize = 0;
        let mut hit = true;
        while j < ln
            invariant_except_break
                hit,
            invariant
                lh == hay@.len(),
                ln == needle@.len(),
                k + ln <= lh,
                j <= ln,
                hit ==> forall|j2: int|
                    0 <= j2 < j ==> lower_int(hay@[k + j2]) == lower_int(needle@[j2]),
            ensures
                hit ==> forall|j2: int|
                    0 <= j2 < j ==> lower_int(hay@[k + j2]) == lower_int(needle@[j2]),
                hit ==> j == ln,
                !hit ==> j < ln && lower_int(hay@[k + j]) != lower_int(needle@[j as int]),
            decreases ln - j,
        {
            if lower_x(hay.get_char(k + j)) != lower_x(needle.get_char(j)) {
                hit = false;
                break ;
            }
            j = j + 1;
        }
        if hit {
            assert(matches_at_ci(hay@, needle@, k as int));
            return true;
        }
        assert(!matches_at_ci(hay@, needle@, k as int));
        k = k + 1;
    }
    assert(forall|k2: int| !matches_at_ci(hay@, needle@, k2));
    false
}

/// The single decimal digit `d` as text.
pub open spec fn digit_seq(d: int) -> Seq<char> {
    if d == 0 {
        "0"@
    } else if d == 1 {
        "1"@
    } else if d == 2 {
        "2"@
    } else if d == 3 {
        "3"@
    } else if d == 4 {
        "4"@
    } else if d == 5 {
        "5"@
    } else if d == 6 {
        "6"@
    } else if d == 7 {
        "7"@
    } else if d == 8 {
        "8"@
    } else {
        "9"@
    }
}

/// Decimal rendering of a non-negative integer, without leading zeros.
pub open spec fn dec_nat(n: int) -> Seq<char>
    decreases n,
{
    if n < 10 {
        digit_seq(n)
    } else {
        dec_nat(n / 10) + digit_seq(n % 10)
    }
}

/// Decimal rendering of an integer, with a leading minus sign if negative.
pub open spec fn dec_int(n: int) -> Seq<char> {
    if n < 0 {
        "-"@ + dec_nat(-n)
    } else {
        dec_nat(n)
    }
}

/// Decimal rendering of `n` padded with zeros to at least two digits.
pub open spec fn pad2(n: int) -> Seq<char> {
    if 0 <= n < 10 {
        "0"@ + digit_seq(n)
    } else {
        dec_nat(n)
    }
}

/// Decimal rendering of `n` padded with zeros to at least four digits.
pub open spec fn pad4(n: int) -> Seq<char> {
    if 0 <= n < 10 {
        "000"@ + digit_seq(n)
    } else if 10 <= n < 100 {
        "00"@ + dec_nat(n)
    } else if 100 <= n < 1000 {
        "0"@ + dec_nat(n)
    } else {
        dec_nat(n)
    }
}

fn digit_str(d: u64) -> (r: &'static str)
    requires
        d < 10,
    ensures
        r@ == digit_seq(d as int),
{
    if d == 0 {
        "0"
    } else if d == 1 {
        "1"
    } else if d == 2 {
        "2"
    } else if d == 3 {
        "3"
    } else if d == 4 {
        "4"
    } else if d == 5 {
        "5"
    } else if d == 6 {
        "6"
    } else if d == 7 {
        "7"
    } else if d == 8 {
        "8"
    } else {
        "9"
    }
}

/// Decimal rendering of a `u64`.
pub fn u64_to_string(n: u64) -> (r: String)
    ensures
        r@ == dec_nat(n as int),
    decreases n,
{
    if n < 10 {
        digit_str(n).to_owned()
    } else {
        let mut s = u64_to_string(n / 10);
        s.append(digit_str(n % 10));
        s
    }
}

/// Decimal rendering of an `i64`, with a minus sign if negative.
pub fn i64_to_string(n: i64) -> (r: String)
    ensures
        r@ == dec_int(n as int),
{
    if n >= 0 {
        u64_to_string(n as u64)
    } else {
        let mag: u64 = ((-(n + 1)) as u64) + 1;
        let mut s = "-".to_owned();
        s.append(u64_to_string(mag).as_str());
        s
    }
}

/// Decimal rendering of `n`, zero-padded to at least two digits.
pub fn pad2_string(n: u64) -> (r: String)
    ensures
        r@ == pad2(n as int),
{
    if n < 10 {
        let mut s = "0".to_owned();
        s.append(digit_str(n));
        s
    } else {
        u64_to_string(n)
    }
}

/// Decimal rendering of `n`, zero-padded to at least four digits.
pub fn pad4_string(n: u64) -> (r: String)
    ensures
        r@ == pad4(n as int),
{
    if n < 10 {
        let mut s = "000".to_owned();
        s.append(digit_str(n));
        s
    } else if n < 100 {
        let mut s = "00".to_owned();
        s.append(u64_to_string(n).as_str());
        s
    } else if n < 1000 {
        let mut s = "0".to_owned();
        s.append(u64_to_string(n).as_str());
        s
    } else {
        u64_to_string(n)
    }
}

/// ASCII whitespace.
pub open spec fn is_ws(c: char) -> bool {
    c == ' ' || c == '\t' || c == '\n' || c == '\r'
}

fn is_ws_x(c: char) -> (r: bool)
    ensures
        r == is_ws(c),
{
    c == ' ' || c == '\t' || c == '\n' || c == '\r'
}

/// Length of the leading run of non-whitespace characters.
pub open spec fn token_len(s: Seq<char>) -> int
    decreases s.len(),
{
    if s.len() == 0 || is_ws(s[0]) {
        0
    } else {
        1 + token_len(s.drop_first())
    }
}

pub proof fn lemma_token_len_bounds(s: Seq<char>)
    ensures
        0 <= token_len(s) <= s.len(),
        s.len() > 0 && !is_ws(s[0]) ==> token_len(s) >= 1,
    decreases s.len(),
{
    if s.len() > 0 && !is_ws(s[0]) {
        lemma_token_len_bounds(s.drop_first());
    }
}

/// `token_len` is exactly the first whitespace position.
proof fn lemma_token_len_is(s: Seq<char>, k: int)
    requires
        0 <= k <= s.len(),
        forall|j: int| 0 <= j < k ==> !is_ws(s[j]),
        k == s.len() || is_ws(s[k]),
    ensures
        token_len(s) == k,
    decreases s.len(),
{
    if k > 0 {
        let t = s.drop_first();
        assert(forall|j: int| 0 <= j < k - 1 ==> t[j] == s[j + 1] && !is_ws(t[j]));
        lemma_token_len_is(t, k - 1);
    }
}

/// The whitespace-separated tokens of `s`, in order.
pub open spec fn tokens_of(s: Seq<char>) -> Seq<Seq<char>>
    decreases s.len(),
    via tokens_of_decreases
{
    if s.len() == 0 {
        Seq::empty()
    } else if is_ws(s[0]) {
        tokens_of(s.drop_first())
    } else {
        seq![s.take(token_len(s))] + tokens_of(s.skip(token_len(s)))
    }
}

#[via_fn]
proof fn tokens_of_decreases(s: Seq<char>) {
    lemma_token_len_bounds(s);
}

/// Split a string into its whitespace-separated tokens.
pub fn split_tokens(s: &str) -> (r: Vec<String>)
    ensures
        r.deep_view() == tokens_of(s@),
{
    let len = s.unicode_len();
    let mut r: Vec<String> = Vec::new();
    let mut i: usize = 0;
    proof {
        assert(s@.skip(0) =~= s@);
        assert(r.deep_view() =~= Seq::<Seq<char>>::empty());
        assert(Seq::<Seq<char>>::empty() + tokens_of(s@) =~= tokens_of(s@));
    }
    while i < len
        invariant
            i <= len,
            len == s@.len(),
            tokens_of(s@) == r.deep_view() + tokens_of(s@.skip(i as int)),
        decreases len - i,
    {
        let c = s.get_char(i);
        if is_ws_x(c) {
            proof {
                let rest = s@.skip(i as int);
                assert(rest[0] == s@[i as int]);
                assert(rest.drop_first() =~= s@.skip(i as int + 1));
            }
            i = i + 1;
        } else {
            let mut j: usize = i + 1;
            while j < len
                invariant
                    i < j <= len,
                    len == s@.len(),
                    forall|j2: int| i <= j2 < j ==> !is_ws(s@[j2]),
                ensures
                    i < j <= len,
                    forall|j2: int| i <= j2 < j ==> !is_ws(s@[j2]),
                    j == len || is_ws(s@[j as int]),
                decreases len - j,
            {
                if is_ws_x(s.get_char(j)) {
                    break ;
                }
                j = j + 1;
            }
            let tok = s.substring_char(i, j).to_owned();
            proof {
                let rest = s@.skip(i as int);
                assert(forall|j2: int| 0 <= j2 < j - i ==> rest[j2] == s@[i + j2] && !is_ws(
                    rest[j2],
                ));
                if j < len {
                    assert(rest[j - i as int] == s@[j as int]);
                }
                lemma_token_len_is(rest, j - i as int);
                assert(rest.take(j - i as int) =~= s@.subrange(i as int, j as int));
                assert(rest.skip(j - i as int) =~= s@.skip(j as int));
                assert(tokens_of(rest) == seq![tok@] + tokens_of(s@.skip(j as int)));
            }
            let ghost dv0 = r.deep_view();
            r.push(tok);
            proof {
                assert(r.deep_view() =~= dv0 + seq![tok@]);
                assert(dv0 + seq![tok@] + tokens_of(s@.skip(j as int)) =~= dv0 + (seq![tok@]
                    + tokens_of(s@.skip(j as int))));
            }
            i = j;
        }
    }
    proof {
        assert(s@.skip(len as int) =~= Seq::<char>::empty());
        assert(tokens_of(s@) =~= r.deep_view());
    }
    r
}

} // verus!
