use vstd::prelude::*;

use crate::api::shared::strings_view;
use crate::text::{
    is_digit, digit_run, digit_run_at, digits_number, digits_value, ends_with, has_prefix, has_suffix,
    lemma_digit_run, lemma_trailing_digits, matches_at, occurs_at, starts_with, str_eq,
    trailing_digits, trailing_digits_of,
};

verus! {

// Features that come in tiers carry the tier's value in their identifier: a die
// (`prefix-dN`), a number of dice (`prefix-N-die`, `prefix-N-dice`), a challenge rating
// (`prefix-cr-N-or-below`, `prefix-cr-N-M-or-below` for N/M) or a speed step
// (`unarmored-movement-N`). Each value holds one to nine digits, and a denominator is not zero.
/// `prefix-dN`: the prefix and N.
pub open spec fn dice_match(s: Seq<char>) -> Option<(Seq<char>, nat)> {
    let t = trailing_digits(s) as int;
    let at = s.len() - t - "-d"@.len();
    if 1 <= t <= 9 && at >= 1 && occurs_at(s, "-d"@, at) {
        Some((s.subrange(0, at), digits_value(s.subrange(s.len() - t, s.len() as int))))
    } else {
        None
    }
}

/// The part of `s` before a final `-die` or `-dice`.
pub open spec fn dice_count_body(s: Seq<char>) -> Option<Seq<char>> {
    if has_suffix(s, "-die"@) {
        Some(s.subrange(0, s.len() - "-die"@.len()))
    } else if has_suffix(s, "-dice"@) {
        Some(s.subrange(0, s.len() - "-dice"@.len()))
    } else {
        None
    }
}

/// `prefix-N-die` or `prefix-N-dice`: the prefix and N.
pub open spec fn dice_count_match(s: Seq<char>) -> Option<(Seq<char>, nat)> {
    match dice_count_body(s) {
        Some(b) => {
            let t = trailing_digits(b) as int;
            let at = b.len() - t - 1;
            if 1 <= t <= 9 && at >= 1 && b[at] == '-' {
                Some((b.subrange(0, at), digits_value(b.subrange(b.len() - t, b.len() as int))))
            } else {
                None
            }
        },
        None => None,
    }
}

/// `unarmored-movement-N`: N.
pub open spec fn movement_match(s: Seq<char>) -> Option<nat> {
    let p = "unarmored-movement-"@.len();
    let t = trailing_digits(s) as int;
    if has_prefix(s, "unarmored-movement-"@) && 1 <= t <= 9 && t == s.len() - p {
        Some(digits_value(s.subrange(p as int, s.len() as int)))
    } else {
        None
    }
}

/// The challenge rating written at index `i` of `s` as `-cr-N-or-below` or
/// `-cr-N-M-or-below`, as a numerator and a denominator.
pub open spec fn cr_at(s: Seq<char>, i: int) -> Option<(nat, nat)> {
    let j = i + "-cr-"@.len();
    let a = digit_run(s, j) as int;
    let k = j + a;
    let b = digit_run(s, k + 1) as int;
    if !occurs_at(s, "-cr-"@, i) || !(1 <= a <= 9) {
        None
    } else if occurs_at(s, "-or-below"@, k) {
        Some((digits_value(s.subrange(j, k)), 1))
    } else if k < s.len() && s[k] == '-' && 1 <= b <= 9 && occurs_at(s, "-or-below"@, k + 1 + b)
        && digits_value(s.subrange(k + 1, k + 1 + b)) > 0 {
        Some((digits_value(s.subrange(j, k)), digits_value(s.subrange(k + 1, k + 1 + b))))
    } else {
        None
    }
}

/// The last challenge rating written in `s` at an index below `i`: what precedes it, and
/// the rating.
pub open spec fn cr_before(s: Seq<char>, i: int) -> Option<(Seq<char>, nat, nat)>
    decreases i,
{
    if i <= 0 {
        None
    } else {
        match cr_at(s, i - 1) {
            Some((n, d)) => Some((s.subrange(0, i - 1), n, d)),
            None => cr_before(s, i - 1),
        }
    }
}

/// `prefix-cr-...-or-below...`, with the last such rating in `s`: the prefix and the rating.
pub open spec fn cr_match(s: Seq<char>) -> Option<(Seq<char>, nat, nat)> {
    cr_before(s, s.len() as int)
}

/// The die tier of `s`, unless `s` is a challenge rating.
pub open spec fn dice_key(s: Seq<char>) -> Option<(Seq<char>, nat)> {
    if cr_match(s) is Some {
        None
    } else {
        dice_match(s)
    }
}

/// The dice count tier of `s`, unless `s` is of an earlier kind.
pub open spec fn dice_count_key(s: Seq<char>) -> Option<(Seq<char>, nat)> {
    if cr_match(s) is Some || dice_match(s) is Some {
        None
    } else {
        dice_count_match(s)
    }
}

/// The speed tier of `s`, unless `s` is of an earlier kind.
pub open spec fn movement_key(s: Seq<char>) -> Option<nat> {
    if cr_match(s) is Some || dice_match(s) is Some || dice_count_match(s) is Some {
        None
    } else {
        movement_match(s)
    }
}

/// n1/d1 is above n2/d2.
pub open spec fn rating_above(n1: nat, d1: nat, n2: nat, d2: nat) -> bool {
    n1 * d2 > n2 * d1
}

/// Among the first `n` features, the first one with the highest challenge rating for
/// `prefix`, with that rating.
pub open spec fn cr_best(fs: Seq<Seq<char>>, n: int, prefix: Seq<char>) -> Option<(nat, nat, Seq<char>)>
    decreases n,
{
    if n <= 0 {
        None
    } else {
        let best = cr_best(fs, n - 1, prefix);
        match cr_match(fs[n - 1]) {
            Some((p, a, b)) => if p == prefix && (best matches Some((c, d, _)) ==> rating_above(
                a,
                b,
                c,
                d,
            )) {
                Some((a, b, fs[n - 1]))
            } else {
                best
            },
            None => best,
        }
    }
}

/// Among the first `n` features, the highest die for `prefix`, or 0.
pub open spec fn dice_max(fs: Seq<Seq<char>>, n: int, prefix: Seq<char>) -> nat
    decreases n,
{
    if n <= 0 {
        0
    } else {
        let m = dice_max(fs, n - 1, prefix);
        match dice_key(fs[n - 1]) {
            Some((p, v)) => if p == prefix && v > m {
                v
            } else {
                m
            },
            None => m,
        }
    }
}

/// Among the first `n` features, the highest dice count for `prefix`, or 0.
pub open spec fn dice_count_max(fs: Seq<Seq<char>>, n: int, prefix: Seq<char>) -> nat
    decreases n,
{
    if n <= 0 {
        0
    } else {
        let m = dice_count_max(fs, n - 1, prefix);
        match dice_count_key(fs[n - 1]) {
            Some((p, v)) => if p == prefix && v > m {
                v
            } else {
                m
            },
            None => m,
        }
    }
}

/// Among the first `n` features, the first one with the highest speed step, with that step.
pub open spec fn movement_best(fs: Seq<Seq<char>>, n: int) -> Option<(nat, Seq<char>)>
    decreases n,
{
    if n <= 0 {
        None
    } else {
        let best = movement_best(fs, n - 1);
        match movement_key(fs[n - 1]) {
            Some(v) => if (best matches Some((w, _)) ==> v > w) {
                Some((v, fs[n - 1]))
            } else {
                best
            },
            None => best,
        }
    }
}

/// Whether feature `i` of `fs` stays in the listing: a tier stays only when no other tier of
/// its kind and prefix is higher (for a rating or a speed, the first of the highest stays),
/// and `divine-smite` goes when `improved-divine-smite` is there.
pub open spec fn survives(fs: Seq<Seq<char>>, i: int) -> bool {
    let f = fs[i];
    let n = fs.len() as int;
    if f == "divine-smite"@ && fs.contains("improved-divine-smite"@) {
        false
    } else if let Some((p, _, _)) = cr_match(f) {
        cr_best(fs, n, p) matches Some((_, _, g)) && g == f
    } else if let Some((p, v)) = dice_key(f) {
        v == dice_max(fs, n, p)
    } else if let Some((p, v)) = dice_count_key(f) {
        v == dice_count_max(fs, n, p)
    } else if movement_key(f) is Some {
        movement_best(fs, n) matches Some((_, g)) && g == f
    } else {
        true
    }
}

/// The features among the first `n` of `fs` that survive, in order.
pub open spec fn survivors(fs: Seq<Seq<char>>, n: int) -> Seq<Seq<char>>
    decreases n,
{
    if n <= 0 {
        seq![]
    } else if survives(fs, n - 1) {
        survivors(fs, n - 1).push(fs[n - 1])
    } else {
        survivors(fs, n - 1)
    }
}

/// Only the highest tier of each graduated feature is kept, in the order of `fs`.
pub open spec fn graduated(fs: Seq<Seq<char>>) -> Seq<Seq<char>> {
    survivors(fs, fs.len() as int)
}

/// The die tier of `s`.
fn dice_parse(s: &str) -> (r: Option<(String, u64)>)
    ensures
        match dice_match(s@) {
            Some((p, v)) => r matches Some((q, w)) && q@ == p && w == v && w < 1_000_000_000,
            None => r is None,
        },
{
    let sl = s.unicode_len();
    let t = trailing_digits_of(s);
    let dl = "-d".unicode_len();
    if t < 1 || t > 9 || sl - t < dl || sl - t - dl < 1 {
        return None;
    }
    let at = sl - t - dl;
    if !matches_at(s, "-d", at) {
        return None;
    }
    proof {
        lemma_trailing_digits(s@);
    }
    let v = digits_number(s, sl - t, sl);
    let p = String::from_str(s.substring_char(0, at));
    Some((p, v))
}

/// The dice count tier of `s`.
fn dice_count_parse(s: &str) -> (r: Option<(String, u64)>)
    ensures
        match dice_count_match(s@) {
            Some((p, v)) => r matches Some((q, w)) && q@ == p && w == v && w < 1_000_000_000,
            None => r is None,
        },
{
    let sl = s.unicode_len();
    let b = if ends_with(s, "-die") {
        s.substring_char(0, sl - "-die".unicode_len())
    } else if ends_with(s, "-dice") {
        s.substring_char(0, sl - "-dice".unicode_len())
    } else {
        return None;
    };
    assert(dice_count_body(s@) == Some(b@));
    let bl = b.unicode_len();
    let t = trailing_digits_of(b);
    if t < 1 || t > 9 || bl - t < 2 {
        return None;
    }
    let at = bl - t - 1;
    if b.get_char(at) != '-' {
        return None;
    }
    proof {
        lemma_trailing_digits(b@);
    }
    let v = digits_number(b, bl - t, bl);
    let p = String::from_str(b.substring_char(0, at));
    Some((p, v))
}

/// The speed tier of `s`.
fn movement_parse(s: &str) -> (r: Option<u64>)
    ensures
        match movement_match(s@) {
            Some(v) => r == Some(v as u64) && v < 1_000_000_000,
            None => r is None,
        },
{
    if !starts_with(s, "unarmored-movement-") {
        return None;
    }
    let sl = s.unicode_len();
    let p = "unarmored-movement-".unicode_len();
    let t = trailing_digits_of(s);
    if t < 1 || t > 9 || t != sl - p {
        return None;
    }
    proof {
        lemma_trailing_digits(s@);
    }
    Some(digits_number(s, p, sl))
}

/// The challenge rating written at index `i` of `s`.
fn cr_at_index(s: &str, i: usize) -> (r: Option<(u64, u64)>)
    ensures
        match cr_at(s@, i as int) {
            Some((n, d)) => r == Some((n as u64, d as u64)) && n < 1_000_000_000 && 0 < d
                < 1_000_000_000,
            None => r is None,
        },
{
    if !matches_at(s, "-cr-", i) {
        return None;
    }
    let sl = s.unicode_len();
    let j = i + "-cr-".unicode_len();
    let a = digit_run_at(s, j);
    if a < 1 || a > 9 {
        return None;
    }
    proof {
        lemma_digit_run(s@, j as int);
    }
    let k = j + a;
    let num = digits_number(s, j, k);
    if matches_at(s, "-or-below", k) {
        return Some((num, 1));
    }
    if k < sl && s.get_char(k) == '-' {
        let b = digit_run_at(s, k + 1);
        if 1 <= b && b <= 9 {
            proof {
                lemma_digit_run(s@, k + 1);
            }
            if matches_at(s, "-or-below", k + 1 + b) {
                let den = digits_number(s, k + 1, k + 1 + b);
                if den > 0 {
                    return Some((num, den));
                }
            }
        }
    }
    None
}

/// The last challenge rating written in `s`, with what precedes it.
fn cr_parse(s: &str) -> (r: Option<(String, u64, u64)>)
    ensures
        match cr_match(s@) {
            Some((p, n, d)) => r matches Some((q, x, y)) && q@ == p && x == n && y == d && n
                < 1_000_000_000 && 0 < d < 1_000_000_000,
            None => r is None,
        },
{
    let sl = s.unicode_len();
    let mut i: usize = sl;
    while i > 0
        invariant
            i <= sl,
            sl == s@.len(),
            cr_match(s@) == cr_before(s@, i as int),
        decreases i,
    {
        match cr_at_index(s, i - 1) {
            Some((n, d)) => {
                let p = String::from_str(s.substring_char(0, i - 1));
                return Some((p, n, d));
            },
            None => {},
        }
        i = i - 1;
    }
    None
}

/// The die tier of `s`, unless `s` is a challenge rating.
fn dice_key_of(s: &str) -> (r: Option<(String, u64)>)
    ensures
        match dice_key(s@) {
            Some((p, v)) => r matches Some((q, w)) && q@ == p && w == v && w < 1_000_000_000,
            None => r is None,
        },
{
    if cr_parse(s).is_some() {
        None
    } else {
        dice_parse(s)
    }
}

/// The dice count tier of `s`, unless `s` is of an earlier kind.
fn dice_count_key_of(s: &str) -> (r: Option<(String, u64)>)
    ensures
        match dice_count_key(s@) {
            Some((p, v)) => r matches Some((q, w)) && q@ == p && w == v && w < 1_000_000_000,
            None => r is None,
        },
{
    if cr_parse(s).is_some() || dice_parse(s).is_some() {
        None
    } else {
        dice_count_parse(s)
    }
}

/// The speed tier of `s`, unless `s` is of an earlier kind.
fn movement_key_of(s: &str) -> (r: Option<u64>)
    ensures
        match movement_key(s@) {
            Some(v) => r == Some(v as u64) && v < 1_000_000_000,
            None => r is None,
        },
{
    if cr_parse(s).is_some() || dice_parse(s).is_some() || dice_count_parse(s).is_some() {
        None
    } else {
        movement_parse(s)
    }
}

/// Among all of `fs`, the first feature with the highest challenge rating for `prefix`: the
/// rating and the feature's position.
fn cr_best_of(fs: &Vec<String>, prefix: &str) -> (r: Option<(u64, u64, usize)>)
    ensures
        match cr_best(strings_view(fs@), fs@.len() as int, prefix@) {
            Some((a, b, g)) => r matches Some((x, y, k)) && x == a && y == b && k < fs@.len()
                && fs@[k as int]@ == g,
            None => r is None,
        },
{
    let ghost view = strings_view(fs@);
    let mut best: Option<(u64, u64, usize)> = None;
    let mut j: usize = 0;
    while j < fs.len()
        invariant
            j <= fs@.len(),
            view == strings_view(fs@),
            match cr_best(view, j as int, prefix@) {
                Some((a, b, g)) => best matches Some((x, y, k)) && x == a && y == b && k < j
                    && fs@[k as int]@ == g && a < 1_000_000_000 && 0 < b < 1_000_000_000,
                None => best is None,
            },
        decreases fs.len() - j,
    {
        assert(view[j as int] == fs@[j as int]@);
        match cr_parse(fs[j].as_str()) {
            Some((p, a, b)) => {
                if str_eq(p.as_str(), prefix) {
                    let above = match best {
                        None => true,
                        Some((c, d, _)) => {
                            proof {
                                assert(a * d < 1_000_000_000 * 1_000_000_000) by (nonlinear_arith)
                                    requires
                                        a < 1_000_000_000,
                                        d < 1_000_000_000,
                                ;
                                assert(c * b < 1_000_000_000 * 1_000_000_000) by (nonlinear_arith)
                                    requires
                                        c < 1_000_000_000,
                                        b < 1_000_000_000,
                                ;
                            }
                            a * d > c * b
                        },
                    };
                    if above {
                        best = Some((a, b, j));
                    }
                }
            },
            None => {},
        }
        j = j + 1;
    }
    best
}

/// The highest die for `prefix` among all of `fs`, or 0.
fn dice_max_of(fs: &Vec<String>, prefix: &str) -> (r: u64)
    ensures
        r == dice_max(strings_view(fs@), fs@.len() as int, prefix@),
{
    let ghost view = strings_view(fs@);
    let mut m: u64 = 0;
    let mut j: usize = 0;
    while j < fs.len()
        invariant
            j <= fs@.len(),
            view == strings_view(fs@),
            m == dice_max(view, j as int, prefix@),
        decreases fs.len() - j,
    {
        assert(view[j as int] == fs@[j as int]@);
        match dice_key_of(fs[j].as_str()) {
            Some((p, v)) => {
                if str_eq(p.as_str(), prefix) && v > m {
                    m = v;
                }
            },
            None => {},
        }
        j = j + 1;
    }
    m
}

/// The highest dice count for `prefix` among all of `fs`, or 0.
fn dice_count_max_of(fs: &Vec<String>, prefix: &str) -> (r: u64)
    ensures
        r == dice_count_max(strings_view(fs@), fs@.len() as int, prefix@),
{
    let ghost view = strings_view(fs@);
    let mut m: u64 = 0;
    let mut j: usize = 0;
    while j < fs.len()
        invariant
            j <= fs@.len(),
            view == strings_view(fs@),
            m == dice_count_max(view, j as int, prefix@),
        decreases fs.len() - j,
    {
        assert(view[j as int] == fs@[j as int]@);
        match dice_count_key_of(fs[j].as_str()) {
            Some((p, v)) => {
                if str_eq(p.as_str(), prefix) && v > m {
                    m = v;
                }
            },
            None => {},
        }
        j = j + 1;
    }
    m
}

/// The first feature of `fs` with the highest speed step: the step and the position.
fn movement_best_of(fs: &Vec<String>) -> (r: Option<(u64, usize)>)
    ensures
        match movement_best(strings_view(fs@), fs@.len() as int) {
            Some((v, g)) => r matches Some((w, k)) && w == v && k < fs@.len() && fs@[k as int]@
                == g,
            None => r is None,
        },
{
    let ghost view = strings_view(fs@);
    let mut best: Option<(u64, usize)> = None;
    let mut j: usize = 0;
    while j < fs.len()
        invariant
            j <= fs@.len(),
            view == strings_view(fs@),
            match movement_best(view, j as int) {
                Some((v, g)) => best matches Some((w, k)) && w == v && k < j && fs@[k as int]@
                    == g,
                None => best is None,
            },
        decreases fs.len() - j,
    {
        assert(view[j as int] == fs@[j as int]@);
        match movement_key_of(fs[j].as_str()) {
            Some(v) => {
                let above = match best {
                    None => true,
                    Some((w, _)) => v > w,
                };
                if above {
                    best = Some((v, j));
                }
            },
            None => {},
        }
        j = j + 1;
    }
    best
}

/// Whether `name` is one of `fs`.
pub fn names_contain(fs: &Vec<String>, name: &str) -> (r: bool)
    ensures
        r == strings_view(fs@).contains(name@),
{
    let ghost view = strings_view(fs@);
    let mut j: usize = 0;
    while j < fs.len()
        invariant
            j <= fs@.len(),
            view == strings_view(fs@),
            forall|k: int| 0 <= k < j ==> view[k] != name@,
        decreases fs.len() - j,
    {
        if str_eq(fs[j].as_str(), name) {
            assert(view[j as int] == name@);
            return true;
        }
        j = j + 1;
    }
    false
}

/// Whether feature `i` of `fs` stays in the listing; `improved` says whether
/// `improved-divine-smite` is among `fs`.
fn survives_at(fs: &Vec<String>, i: usize, improved: bool) -> (r: bool)
    requires
        i < fs@.len(),
        improved == strings_view(fs@).contains("improved-divine-smite"@),
    ensures
        r == survives(strings_view(fs@), i as int),
{
    let f = fs[i].as_str();
    assert(strings_view(fs@)[i as int] == f@);
    if improved && str_eq(f, "divine-smite") {
        return false;
    }
    match cr_parse(f) {
        Some((p, _, _)) => match cr_best_of(fs, p.as_str()) {
            Some((_, _, g)) => str_eq(fs[g].as_str(), f),
            None => false,
        },
        None => match dice_parse(f) {
            Some((p, v)) => v == dice_max_of(fs, p.as_str()),
            None => match dice_count_parse(f) {
                Some((p, v)) => v == dice_count_max_of(fs, p.as_str()),
                None => match movement_parse(f) {
                    Some(_) => match movement_best_of(fs) {
                        Some((_, g)) => str_eq(fs[g].as_str(), f),
                        None => false,
                    },
                    None => true,
                },
            },
        },
    }
}

/// Keeps only the highest tier of each graduated feature of `fs`, in order, and drops
/// `divine-smite` when `improved-divine-smite` is there.
pub fn keep_highest_tiers(fs: &Vec<String>) -> (r: Vec<String>)
    ensures
        strings_view(r@) == graduated(strings_view(fs@)),
{
    let ghost view = strings_view(fs@);
    let improved = names_contain(fs, "improved-divine-smite");
    let mut out: Vec<String> = Vec::new();
    let mut i: usize = 0;
    while i < fs.len()
        invariant
            i <= fs@.len(),
            view == strings_view(fs@),
            improved == view.contains("improved-divine-smite"@),
            strings_view(out@) == survivors(view, i as int),
        decreases fs.len() - i,
    {
        if survives_at(fs, i, improved) {
            let f = fs[i].clone();
            let ghost prev = out@;
            out.push(f);
            proof {
                assert(strings_view(out@) =~= strings_view(prev).push(view[i as int]));
            }
        }
        i = i + 1;
    }
    out
}

/// The highest die of a group is at least the die of each of its members.
proof fn lemma_dice_max_bounds(fs: Seq<Seq<char>>, n: int, j: int, prefix: Seq<char>, v: nat)
    requires
        0 <= j < n <= fs.len(),
        dice_key(fs[j]) == Some((prefix, v)),
    ensures
        v <= dice_max(fs, n, prefix),
    decreases n,
{
    if j < n - 1 {
        lemma_dice_max_bounds(fs, n - 1, j, prefix, v);
    }
}

/// A die tier goes from the listing when a higher die of the same prefix is among the
/// features: of `foo-d4`, `foo-d6` and `foo-d8`, only `foo-d8` can stay.
pub proof fn lemma_lower_die_tier_dropped(fs: Seq<Seq<char>>, i: int, j: int, prefix: Seq<char>, low: nat, high: nat)
    requires
        0 <= i < fs.len(),
        0 <= j < fs.len(),
        dice_key(fs[i]) == Some((prefix, low)),
        dice_key(fs[j]) == Some((prefix, high)),
        low < high,
    ensures
        !survives(fs, i),
{
    lemma_dice_max_bounds(fs, fs.len() as int, j, prefix, high);
}

/// The highest die of a group, when the group has members, is the die of one of them.
proof fn lemma_dice_max_attained(fs: Seq<Seq<char>>, n: int, prefix: Seq<char>)
    requires
        0 <= n <= fs.len(),
        dice_max(fs, n, prefix) > 0,
    ensures
        exists|j: int| 0 <= j < n && dice_key(fs[j]) == Some((prefix, dice_max(fs, n, prefix))),
    decreases n,
{
    if n > 0 {
        let m = dice_max(fs, n - 1, prefix);
        if dice_max(fs, n, prefix) == m {
            lemma_dice_max_attained(fs, n - 1, prefix);
            let j = choose|j: int| 0 <= j < n - 1 && dice_key(fs[j]) == Some((prefix, m));
            assert(0 <= j < n && dice_key(fs[j]) == Some((prefix, dice_max(fs, n, prefix))));
        } else {
            assert(dice_key(fs[n - 1]) == Some((prefix, dice_max(fs, n, prefix))));
        }
    }
}

/// `s` is no die tier of `prefix` above `v`.
pub open spec fn die_at_most(s: Seq<char>, prefix: Seq<char>, v: nat) -> bool {
    match dice_key(s) {
        Some((q, w)) => q == prefix ==> w <= v,
        None => true,
    }
}

/// A die tier that has the highest die of its prefix among the features stays in the
/// listing, unless it is `divine-smite` beside `improved-divine-smite`.
pub proof fn lemma_highest_die_tier_kept(fs: Seq<Seq<char>>, i: int, prefix: Seq<char>, v: nat)
    requires
        0 <= i < fs.len(),
        dice_key(fs[i]) == Some((prefix, v)),
        forall|j: int| 0 <= j < fs.len() ==> die_at_most(#[trigger] fs[j], prefix, v),
        !(fs[i] == "divine-smite"@ && fs.contains("improved-divine-smite"@)),
    ensures
        survives(fs, i),
{
    lemma_dice_max_bounds(fs, fs.len() as int, i, prefix, v);
    let m = dice_max(fs, fs.len() as int, prefix);
    if m > 0 {
        lemma_dice_max_attained(fs, fs.len() as int, prefix);
        let j = choose|j: int| 0 <= j < fs.len() && dice_key(fs[j]) == Some((prefix, m));
        assert(die_at_most(fs[j], prefix, v));
    }
}

/// `name` is a die tier `foo-dN` of one digit N: what it parses to.
proof fn lemma_one_digit_die(name: Seq<char>, n: nat)
    requires
        name.len() == 6,
        name[0] == 'f',
        name[1] == 'o',
        name[2] == 'o',
        name[3] == '-',
        name[4] == 'd',
        is_digit(name[5]),
        (name[5] as int) - ('0' as int) == n,
    ensures
        cr_match(name) is None,
        dice_key(name) == Some((name.subrange(0, 3), n)),
        name != "divine-smite"@,
{
    reveal_strlit("-cr-");
    reveal_strlit("-d");
    reveal_strlit("divine-smite");
    assert("divine-smite"@.len() == 12);
    assert("-cr-"@.len() == 4);
    assert("-d"@.len() == 2);
    assert forall|i: int| 0 <= i < 6 implies !occurs_at(name, "-cr-"@, i) by {
        if i + 4 <= 6 {
            if i == 0 || i == 1 || i == 2 {
                assert(name.subrange(i, i + 4)[0] != "-cr-"@[0]);
            } else {
                assert(name.subrange(i, i + 4)[1] != "-cr-"@[1]);
            }
        }
    }
    assert(cr_before(name, 0) is None);
    assert(cr_before(name, 1) is None);
    assert(cr_before(name, 2) is None);
    assert(cr_before(name, 3) is None);
    assert(cr_before(name, 4) is None);
    assert(cr_before(name, 5) is None);
    assert(cr_before(name, 6) is None);
    assert(name.drop_last().last() == 'd');
    assert(trailing_digits(name.drop_last()) == 0);
    assert(trailing_digits(name) == 1);
    assert(name.subrange(3, 5) =~= "-d"@);
    let digits = name.subrange(5, 6);
    assert(digits.drop_last() =~= Seq::<char>::empty());
    assert(digits_value(digits.drop_last()) == 0);
    assert(digits.last() == name[5]);
    assert(digits_value(digits) == n);
}

/// Of `foo-d4`, `foo-d6` and `foo-d8`, only `foo-d8` stays.
pub proof fn lemma_highest_die_example()
    ensures
        graduated(seq!["foo-d4"@, "foo-d6"@, "foo-d8"@]) == seq!["foo-d8"@],
{
    reveal_strlit("foo-d4");
    reveal_strlit("foo-d6");
    reveal_strlit("foo-d8");
    let fs = seq!["foo-d4"@, "foo-d6"@, "foo-d8"@];
    lemma_one_digit_die(fs[0], 4);
    lemma_one_digit_die(fs[1], 6);
    lemma_one_digit_die(fs[2], 8);
    let p = fs[2].subrange(0, 3);
    assert(fs[0].subrange(0, 3) =~= p);
    assert(fs[1].subrange(0, 3) =~= p);
    assert(dice_key(fs[0]) == Some((p, 4nat)));
    assert(dice_key(fs[1]) == Some((p, 6nat)));
    assert(dice_key(fs[2]) == Some((p, 8nat)));
    assert(dice_max(fs, 0, p) == 0);
    assert(dice_max(fs, 1, p) == 4);
    assert(dice_max(fs, 2, p) == 6);
    assert(dice_max(fs, 3, p) == 8);
    assert(!survives(fs, 0));
    assert(!survives(fs, 1));
    assert(survives(fs, 2));
    assert(survivors(fs, 0) =~= Seq::<Seq<char>>::empty());
    assert(survivors(fs, 1) =~= Seq::<Seq<char>>::empty());
    assert(survivors(fs, 2) =~= Seq::<Seq<char>>::empty());
    assert(survivors(fs, 3) =~= seq![fs[2]]);
}

} // verus!
