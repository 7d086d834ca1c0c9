use vstd::prelude::*;

verus! {

/// `p` is a prefix of `s`.
pub open spec fn has_prefix(s: Seq<char>, p: Seq<char>) -> bool {
    p.len() <= s.len() && s.subrange(0, p.len() as int) == p
}

/// `p` occurs in `s` starting at index `i`.
pub open spec fn occurs_at(s: Seq<char>, p: Seq<char>, i: int) -> bool {
    0 <= i && i + p.len() <= s.len() && s.subrange(i, i + p.len()) == p
}

/// `p` occurs somewhere in `s`.
pub open spec fn has_infix(s: Seq<char>, p: Seq<char>) -> bool {
    exists|i: int| occurs_at(s, p, i)
}

/// Whether `p` occurs in `s` at character index `at`.
pub fn matches_at(s: &str, p: &str, at: usize) -> (r: bool)
    ensures
        r == occurs_at(s@, p@, at as int),
{
    let sl = s.unicode_len();
    let pl = p.unicode_len();
    if at > sl || pl > sl - at {
        return false;
    }
    let mut k: usize = 0;
    while k < pl
        invariant
            k <= pl,
            pl == p@.len(),
            sl == s@.len(),
            at + pl <= sl,
            forall|j: int| 0 <= j < k ==> s@[at + j] == p@[j],
        decreases pl - k,
    {
        if s.get_char(at + k) != p.get_char(k) {
            assert(s@.subrange(at as int, at + pl)[k as int] != p@[k as int]);
            return false;
        }
        k = k + 1;
    }
    assert(s@.subrange(at as int, at + pl) =~= p@);
    true
}

/// Character by character equality.
pub fn str_eq(a: &str, b: &str) -> (r: bool)
    ensures
        r == (a@ == b@),
{
    if a.unicode_len() != b.unicode_len() {
        return false;
    }
    let r = matches_at(a, b, 0);
    if r {
        assert(a@ =~= a@.subrange(0, b@.len() as int));
    } else {
        assert(a@.subrange(0, a@.len() as int) =~= a@);
    }
    r
}

/// Whether `s` begins with `p`.
pub fn starts_with(s: &str, p: &str) -> (r: bool)
    ensures
        r == has_prefix(s@, p@),
{
    matches_at(s, p, 0)
}

/// Whether `p` occurs anywhere in `s`.
pub fn contains(s: &str, p: &str) -> (r: bool)
    ensures
        r == has_infix(s@, p@),
{
    let sl = s.unicode_len();
    let pl = p.unicode_len();
    if pl > sl {
        assert forall|i: int| !occurs_at(s@, p@, i) by {}
        return false;
    }
    if pl == 0 {
        assert(s@.subrange(0, 0) =~= p@);
        assert(occurs_at(s@, p@, 0));
        return true;
    }
    let mut i: usize = 0;
    while i <= sl - pl
        invariant
            sl == s@.len(),
            pl == p@.len(),
            1 <= pl <= sl,
            i <= sl - pl + 1,
            forall|j: int| 0 <= j < i ==> !occurs_at(s@, p@, j),
        decreases sl - pl + 1 - i,
    {
        if matches_at(s, p, i) {
            return true;
        }
        i = i + 1;
    }
    assert forall|j: int| !occurs_at(s@, p@, j) by {}
    false
}

/// `p` is a suffix of `s`.
pub open spec fn has_suffix(s: Seq<char>, p: Seq<char>) -> bool {
    p.len() <= s.len() && s.subrange(s.len() - p.len(), s.len() as int) == p
}

/// Whether `s` ends with `p`.
pub fn ends_with(s: &str, p: &str) -> (r: bool)
    ensures
        r == has_suffix(s@, p@),
{
    let sl = s.unicode_len();
    let pl = p.unicode_len();
    if pl > sl {
        return false;
    }
    matches_at(s, p, sl - pl)
}

/// An ASCII decimal digit.
pub open spec fn is_digit(c: char) -> bool {
    '0' <= c && c <= '9'
}

/// Every character of `s` is a digit.
pub open spec fn all_digits(s: Seq<char>) -> bool {
    forall|i: int| 0 <= i < s.len() ==> is_digit(#[trigger] s[i])
}

/// The length of the run of digits that starts at index `j` of `s`.
pub open spec fn digit_run(s: Seq<char>, j: int) -> nat
    decreases s.len() - j,
{
    if 0 <= j < s.len() && is_digit(s[j]) {
        1 + digit_run(s, j + 1)
    } else {
        0
    }
}

/// The length of the run of digits that ends `s`.
pub open spec fn trailing_digits(s: Seq<char>) -> nat
    decreases s.len(),
{
    if s.len() > 0 && is_digit(s.last()) {
        1 + trailing_digits(s.drop_last())
    } else {
        0
    }
}

/// The number that a string of digits writes in base ten.
pub open spec fn digits_value(s: Seq<char>) -> nat
    decreases s.len(),
{
    if s.len() == 0 {
        0
    } else {
        digits_value(s.drop_last()) * 10 + ((s.last() as int) - ('0' as int)) as nat
    }
}

/// Ten to the power `n`.
pub open spec fn pow10(n: nat) -> nat
    decreases n,
{
    if n == 0 {
        1
    } else {
        10 * pow10((n - 1) as nat)
    }
}

/// Whether `c` is an ASCII decimal digit.
pub fn is_digit_char(c: char) -> (r: bool)
    ensures
        r == is_digit(c),
{
    '0' <= c && c <= '9'
}

/// The length of the run of digits that starts at index `j` of `s`.
pub fn digit_run_at(s: &str, j: usize) -> (r: usize)
    ensures
        r == digit_run(s@, j as int),
        j + r <= s@.len() || r == 0,
{
    let sl = s.unicode_len();
    if j >= sl {
        return 0;
    }
    let mut k: usize = j;
    while k < sl && is_digit_char(s.get_char(k))
        invariant
            j <= k <= sl,
            sl == s@.len(),
            digit_run(s@, j as int) == (k - j) + digit_run(s@, k as int),
        decreases sl - k,
    {
        k = k + 1;
    }
    k - j
}

/// The length of the run of digits that ends `s`.
pub fn trailing_digits_of(s: &str) -> (r: usize)
    ensures
        r == trailing_digits(s@),
        r <= s@.len(),
{
    let sl = s.unicode_len();
    let mut k: usize = 0;
    assert(s@.subrange(0, sl as int) =~= s@);
    while k < sl && is_digit_char(s.get_char(sl - k - 1))
        invariant
            k <= sl,
            sl == s@.len(),
            trailing_digits(s@) == k + trailing_digits(s@.subrange(0, sl - k)),
        decreases sl - k,
    {
        proof {
            let t = s@.subrange(0, sl - k);
            assert(t.drop_last() =~= s@.subrange(0, sl - k - 1));
        }
        k = k + 1;
    }
    proof {
        if k == sl {
            assert(s@.subrange(0, 0).len() == 0);
        }
    }
    k
}

/// The number written by the digits of `s` from index `from` to index `to`, which hold
/// at most nine digits.
pub fn digits_number(s: &str, from: usize, to: usize) -> (r: u64)
    requires
        from <= to <= s@.len(),
        to - from <= 9,
        all_digits(s@.subrange(from as int, to as int)),
    ensures
        r == digits_value(s@.subrange(from as int, to as int)),
        r < 1_000_000_000,
{
    let mut v: u64 = 0;
    let mut k: usize = from;
    proof {
        assert(s@.subrange(from as int, from as int).len() == 0);
        assert(pow10(0) == 1);
    }
    while k < to
        invariant
            from <= k <= to,
            to <= s@.len(),
            to - from <= 9,
            all_digits(s@.subrange(from as int, to as int)),
            v == digits_value(s@.subrange(from as int, k as int)),
            v < pow10((k - from) as nat),
        decreases to - k,
    {
        let c = s.get_char(k);
        proof {
            let t = s@.subrange(from as int, k as int + 1);
            assert(t.drop_last() =~= s@.subrange(from as int, k as int));
            assert(t.last() == c);
            assert(s@.subrange(from as int, to as int)[k - from] == c);
            assert(is_digit(c));
        }
        let d: u64 = (c as u32 - '0' as u32) as u64;
        proof {
            let p = pow10((k - from) as nat);
            assert(v * 10 + d < 10 * p) by (nonlinear_arith)
                requires
                    v < p,
                    d <= 9,
            ;
            assert(pow10((k + 1 - from) as nat) == 10 * p);
            lemma_pow10_bound((k + 1 - from) as nat);
        }
        v = v * 10 + d;
        k = k + 1;
    }
    proof {
        lemma_pow10_bound((to - from) as nat);
    }
    v
}

/// Ten to at most the ninth power is at most a billion.
proof fn lemma_pow10_bound(n: nat)
    requires
        n <= 9,
    ensures
        pow10(n) <= 1_000_000_000,
    decreases n,
{
    reveal_with_fuel(pow10, 10);
}

/// The digits that end `s` are digits.
pub proof fn lemma_trailing_digits(s: Seq<char>)
    ensures
        trailing_digits(s) <= s.len(),
        all_digits(s.subrange(s.len() - trailing_digits(s), s.len() as int)),
    decreases s.len(),
{
    if s.len() > 0 && is_digit(s.last()) {
        let d = s.drop_last();
        lemma_trailing_digits(d);
        let t = trailing_digits(s) as int;
        let tail = s.subrange(s.len() - t, s.len() as int);
        let dtail = d.subrange(d.len() - (t - 1), d.len() as int);
        assert forall|i: int| 0 <= i < tail.len() implies is_digit(#[trigger] tail[i]) by {
            if i < t - 1 {
                assert(tail[i] == dtail[i]);
            }
        }
    } else {
        assert(s.subrange(s.len() as int, s.len() as int).len() == 0);
    }
}

/// A run of digits holds digits and stays within `s`.
pub proof fn lemma_digit_run(s: Seq<char>, j: int)
    requires
        0 <= j,
    ensures
        digit_run(s, j) > 0 ==> j + digit_run(s, j) <= s.len(),
        digit_run(s, j) > 0 ==> all_digits(s.subrange(j, j + digit_run(s, j))),
    decreases s.len() - j,
{
    if 0 <= j < s.len() && is_digit(s[j]) {
        lemma_digit_run(s, j + 1);
        let r = digit_run(s, j) as int;
        let run = s.subrange(j, j + r);
        assert forall|i: int| 0 <= i < run.len() implies is_digit(#[trigger] run[i]) by {
            if i > 0 {
                assert(run[i] == s.subrange(j + 1, j + r)[i - 1]);
            }
        }
    }
}

} // verus!
