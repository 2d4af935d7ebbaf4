use vstd::prelude::*;
use vstd::string::*;

verus! {

/// Largest integer-seconds value the decimal parser accepts before one more
/// digit is read; keeps every accepted value well under the u64 range once
/// scaled to milliseconds.
pub const MAX_ACC_SECS: u64 = 99_999_999_999_999;

pub open spec fn spec_is_digit(c: char) -> bool {
    48 <= c as u32 <= 57
}

pub open spec fn spec_digit_val(c: char) -> int {
    c as u32 - 48
}

fn digit_val(c: char) -> (r: Option<u32>)
    ensures
        r matches Some(v) ==> spec_is_digit(c) && v == spec_digit_val(c),
        r is None <==> !spec_is_digit(c),
{
    let u = c as u32;
    if 48 <= u && u <= 57 {
        Some(u - 48)
    } else {
        None
    }
}

/// Value of the two digits at `i`, `i + 1`.
pub open spec fn spec_num2(s: Seq<char>, i: int) -> int {
    spec_digit_val(s[i]) * 10 + spec_digit_val(s[i + 1])
}

/// Value of the four digits at `i` .. `i + 3`.
pub open spec fn spec_num4(s: Seq<char>, i: int) -> int {
    spec_digit_val(s[i]) * 1000 + spec_digit_val(s[i + 1]) * 100 + spec_digit_val(s[i + 2]) * 10
        + spec_digit_val(s[i + 3])
}

pub open spec fn spec_digits_at(s: Seq<char>, from: int, to: int) -> bool {
    forall|j: int| from <= j < to ==> spec_is_digit(s[j])
}

fn num2(s: &str, i: usize) -> (r: Option<u64>)
    requires
        i + 2 <= s@.len() <= usize::MAX,
    ensures
        r matches Some(v) ==> spec_digits_at(s@, i as int, i + 2) && v == spec_num2(s@, i as int),
        r is None <==> !spec_digits_at(s@, i as int, i + 2),
{
    let a = digit_val(s.get_char(i));
    let b = digit_val(s.get_char(i + 1));
    match (a, b) {
        (Some(x), Some(y)) => {
            assert(spec_digits_at(s@, i as int, i + 2)) by {
                assert(spec_is_digit(s@[i as int]) && spec_is_digit(s@[i + 1]));
            }
            Some((x * 10 + y) as u64)
        },
        _ => None,
    }
}

fn num4(s: &str, i: usize) -> (r: Option<u64>)
    requires
        i + 4 <= s@.len() <= usize::MAX,
    ensures
        r matches Some(v) ==> spec_digits_at(s@, i as int, i + 4) && v == spec_num4(s@, i as int),
        r is None <==> !spec_digits_at(s@, i as int, i + 4),
{
    let a = digit_val(s.get_char(i));
    let b = digit_val(s.get_char(i + 1));
    let c = digit_val(s.get_char(i + 2));
    let d = digit_val(s.get_char(i + 3));
    match (a, b, c, d) {
        (Some(w), Some(x), Some(y), Some(z)) => {
            assert(spec_digits_at(s@, i as int, i + 4)) by {
                assert(spec_is_digit(s@[i as int]) && spec_is_digit(s@[i + 1]) && spec_is_digit(
                    s@[i + 2],
                ) && spec_is_digit(s@[i + 3]));
            }
            Some((w * 1000 + x * 100 + y * 10 + z) as u64)
        },
        _ => None,
    }
}

pub open spec fn spec_is_leap(y: int) -> bool {
    (y % 4 == 0 && y % 100 != 0) || y % 400 == 0
}

pub open spec fn spec_year_days(y: int) -> int {
    if spec_is_leap(y) {
        366
    } else {
        365
    }
}

/// Days from 1970-01-01 to the first day of year `y`.
pub open spec fn spec_days_to_year(y: int) -> int
    decreases y - 1970,
{
    if y <= 1970 {
        0
    } else {
        spec_days_to_year(y - 1) + spec_year_days(y - 1)
    }
}

/// Days from the first day of the year to the first day of month `m`.
pub open spec fn spec_cum_month_days(m: int, leap: bool) -> int {
    let base: int = if m == 1 {
        0
    } else if m == 2 {
        31
    } else if m == 3 {
        59
    } else if m == 4 {
        90
    } else if m == 5 {
        120
    } else if m == 6 {
        151
    } else if m == 7 {
        181
    } else if m == 8 {
        212
    } else if m == 9 {
        243
    } else if m == 10 {
        273
    } else if m == 11 {
        304
    } else {
        334
    };
    if leap && m > 2 {
        base + 1
    } else {
        base
    }
}

/// Days since 1970-01-01 of the civil date y-m-d (month lengths taken
/// loosely: any day 1..=31 is accepted by the parser).
pub open spec fn spec_days_from_epoch(y: int, m: int, d: int) -> int {
    spec_days_to_year(y) + spec_cum_month_days(m, spec_is_leap(y)) + (d - 1)
}

proof fn lemma_days_to_year_bound(y: int)
    requires
        1970 <= y,
    ensures
        0 <= spec_days_to_year(y) <= (y - 1970) * 366,
    decreases y - 1970,
{
    if y > 1970 {
        lemma_days_to_year_bound(y - 1);
    }
}

fn is_leap(y: u64) -> (r: bool)
    ensures
        r == spec_is_leap(y as int),
{
    (y % 4 == 0 && y % 100 != 0) || y % 400 == 0
}

fn days_to_year(y: u64) -> (r: u64)
    requires
        1970 <= y <= 9999,
    ensures
        r == spec_days_to_year(y as int),
        r <= (y - 1970) * 366,
{
    let mut acc: u64 = 0;
    let mut i: u64 = 1970;
    while i < y
        invariant
            1970 <= i <= y <= 9999,
            acc == spec_days_to_year(i as int),
            acc <= (i - 1970) * 366,
        decreases y - i,
    {
        if is_leap(i) {
            acc = acc + 366;
        } else {
            acc = acc + 365;
        }
        i = i + 1;
    }
    acc
}

fn cum_month_days(m: u64, leap: bool) -> (r: u64)
    requires
        1 <= m <= 12,
    ensures
        r == spec_cum_month_days(m as int, leap),
        r <= 335,
{
    let base: u64 = match m {
        1 => 0,
        2 => 31,
        3 => 59,
        4 => 90,
        5 => 120,
        6 => 151,
        7 => 181,
        8 => 212,
        9 => 243,
        10 => 273,
        11 => 304,
        _ => 334,
    };
    if leap && m > 2 {
        base + 1
    } else {
        base
    }
}

/// A timestamp text accepted by the adapter: `YYYY-MM-DDTHH:MM:SSZ`, with an
/// optional fraction `.d...` before the `Z`, year 1970..=9999, month 1..=12,
/// day 1..=31, in UTC only.
pub open spec fn spec_rfc3339_valid(s: Seq<char>) -> bool {
    &&& s.len() >= 20
    &&& spec_digits_at(s, 0, 4)
    &&& s[4] == '-'
    &&& spec_digits_at(s, 5, 7)
    &&& s[7] == '-'
    &&& spec_digits_at(s, 8, 10)
    &&& s[10] == 'T'
    &&& spec_digits_at(s, 11, 13)
    &&& s[13] == ':'
    &&& spec_digits_at(s, 14, 16)
    &&& s[16] == ':'
    &&& spec_digits_at(s, 17, 19)
    &&& s[s.len() - 1] == 'Z'
    &&& (s.len() == 20 || (s.len() >= 22 && s[19] == '.' && spec_digits_at(s, 20, s.len() - 1)))
    &&& 1970 <= spec_num4(s, 0)
    &&& 1 <= spec_num2(s, 5) <= 12
    &&& 1 <= spec_num2(s, 8) <= 31
    &&& spec_num2(s, 11) <= 23
    &&& spec_num2(s, 14) <= 59
    &&& spec_num2(s, 17) <= 59
}

/// Milliseconds contributed by the fraction digits (the first three count).
pub open spec fn spec_frac_ms(s: Seq<char>) -> int {
    let fl = s.len() - 21;
    if fl <= 0 {
        0
    } else if fl == 1 {
        spec_digit_val(s[20]) * 100
    } else if fl == 2 {
        spec_digit_val(s[20]) * 100 + spec_digit_val(s[21]) * 10
    } else {
        spec_digit_val(s[20]) * 100 + spec_digit_val(s[21]) * 10 + spec_digit_val(s[22])
    }
}

/// Milliseconds since the epoch named by a valid timestamp text.
pub open spec fn spec_rfc3339_ms(s: Seq<char>) -> int {
    (spec_days_from_epoch(spec_num4(s, 0), spec_num2(s, 5), spec_num2(s, 8)) * 86400 + spec_num2(
        s,
        11,
    ) * 3600 + spec_num2(s, 14) * 60 + spec_num2(s, 17)) * 1000 + spec_frac_ms(s)
}

/// Parse a UTC timestamp text to milliseconds since the epoch; nothing where
/// the text is not of the accepted form.
pub fn parse_rfc3339_ms(s: &str) -> (r: Option<u64>)
    ensures
        r matches Some(v) ==> spec_rfc3339_valid(s@) && v == spec_rfc3339_ms(s@),
        r is None <==> !spec_rfc3339_valid(s@),
{
    let n = s.unicode_len();
    if n < 20 {
        return None;
    }
    let year = match num4(s, 0) {
        Some(v) => v,
        None => {
            return None;
        },
    };
    let month = match num2(s, 5) {
        Some(v) => v,
        None => {
            return None;
        },
    };
    let day = match num2(s, 8) {
        Some(v) => v,
        None => {
            return None;
        },
    };
    let hour = match num2(s, 11) {
        Some(v) => v,
        None => {
            return None;
        },
    };
    let minute = match num2(s, 14) {
        Some(v) => v,
        None => {
            return None;
        },
    };
    let second = match num2(s, 17) {
        Some(v) => v,
        None => {
            return None;
        },
    };
    if !(s.get_char(4) == '-' && s.get_char(7) == '-' && s.get_char(10) == 'T' && s.get_char(13)
        == ':' && s.get_char(16) == ':' && s.get_char(n - 1) == 'Z') {
        return None;
    }
    if !(1970 <= year && 1 <= month && month <= 12 && 1 <= day && day <= 31 && hour <= 23 && minute
        <= 59 && second <= 59) {
        return None;
    }
    let mut frac: u64 = 0;
    if n > 20 {
        if n < 22 || s.get_char(19) != '.' {
            return None;
        }
        let mut j: usize = 20;
        while j < n - 1
            invariant
                20 <= j <= n - 1,
                n == s@.len(),
                n >= 22,
                spec_digits_at(s@, 20, j as int),
            decreases n - 1 - j,
        {
            if digit_val(s.get_char(j)).is_none() {
                return None;
            }
            j = j + 1;
        }
        let d0 = match digit_val(s.get_char(20)) {
            Some(v) => v as u64,
            None => {
                return None;
            },
        };
        frac = d0 * 100;
        if n >= 23 {
            let d1 = match digit_val(s.get_char(21)) {
                Some(v) => v as u64,
                None => {
                    return None;
                },
            };
            frac = frac + d1 * 10;
        }
        if n >= 24 {
            let d2 = match digit_val(s.get_char(22)) {
                Some(v) => v as u64,
                None => {
                    return None;
                },
            };
            frac = frac + d2;
        }
        assert(frac == spec_frac_ms(s@));
    }
    proof {
        lemma_days_to_year_bound(year as int);
        assert(spec_rfc3339_valid(s@));
    }
    let days = days_to_year(year) + cum_month_days(month, is_leap(year)) + (day - 1);
    let secs = days * 86400 + hour * 3600 + minute * 60 + second;
    Some(secs * 1000 + frac)
}

/// Value of the digits `s[from..to)` accumulated left to right; nothing where
/// a character is not a digit or the accumulator passes the cutoff.
pub open spec fn spec_dec_val(s: Seq<char>, from: int, to: int) -> Option<int>
    decreases to - from,
{
    if from >= to {
        Some(0)
    } else {
        match spec_dec_val(s, from, to - 1) {
            Some(a) => {
                if !spec_is_digit(s[to - 1]) {
                    None
                } else if a > MAX_ACC_SECS {
                    None
                } else {
                    Some(a * 10 + spec_digit_val(s[to - 1]))
                }
            },
            None => None,
        }
    }
}

proof fn lemma_dec_val_none(s: Seq<char>, from: int, mid: int, to: int)
    requires
        from <= mid <= to,
        spec_dec_val(s, from, mid) is None,
    ensures
        spec_dec_val(s, from, to) is None,
    decreases to - mid,
{
    if to > mid {
        lemma_dec_val_none(s, from, mid, to - 1);
    }
}

fn dec_val(s: &str, from: usize, to: usize) -> (r: Option<u64>)
    requires
        from <= to <= s@.len(),
    ensures
        r matches Some(v) ==> spec_dec_val(s@, from as int, to as int) == Some(v as int),
        r is None <==> spec_dec_val(s@, from as int, to as int) is None,
        r matches Some(v) ==> v <= 10 * MAX_ACC_SECS + 9,
{
    let mut acc: u64 = 0;
    let mut i: usize = from;
    while i < to
        invariant
            from <= i <= to <= s@.len(),
            spec_dec_val(s@, from as int, i as int) == Some(acc as int),
            acc <= 10 * MAX_ACC_SECS + 9,
        decreases to - i,
    {
        let d = match digit_val(s.get_char(i)) {
            Some(v) => v as u64,
            None => {
                proof {
                    assert(spec_dec_val(s@, from as int, i + 1) is None);
                    lemma_dec_val_none(s@, from as int, i + 1, to as int);
                }
                return None;
            },
        };
        if acc > MAX_ACC_SECS {
            proof {
                assert(spec_dec_val(s@, from as int, i + 1) is None);
                lemma_dec_val_none(s@, from as int, i + 1, to as int);
            }
            return None;
        }
        acc = acc * 10 + d;
        i = i + 1;
    }
    Some(acc)
}

/// Milliseconds named by a plain decimal seconds text: `digits` or
/// `digits.digits`, rejecting anything else (signs, exponents, other
/// characters) and values past the accumulator cutoff.
pub open spec fn spec_secs_text_ms(s: Seq<char>) -> Option<int> {
    let split = if exists|j: int| 0 <= j < s.len() && s[j] == '.' {
        choose|j: int| 0 <= j < s.len() && s[j] == '.' && (forall|k: int| 0 <= k < j ==> s[k] != '.')
    } else {
        s.len() as int
    };
    if split == 0 || split == s.len() - 1 {
        None
    } else {
        match spec_dec_val(s, 0, split) {
            None => None,
            Some(whole) => {
                if split == s.len() {
                    Some(whole * 1000)
                } else {
                    if !spec_digits_at(s, split + 1, s.len() as int) {
                        None
                    } else {
                        let fl = s.len() - split - 1;
                        let f0 = spec_digit_val(s[split + 1]) * 100;
                        let f1 = if fl >= 2 {
                            spec_digit_val(s[split + 2]) * 10
                        } else {
                            0
                        };
                        let f2 = if fl >= 3 {
                            spec_digit_val(s[split + 3])
                        } else {
                            0
                        };
                        Some(whole * 1000 + f0 + f1 + f2)
                    }
                }
            },
        }
    }
}

/// Parse a decimal seconds text to milliseconds, keeping the first three
/// fraction digits; nothing where the text is not a plain decimal.
#[verifier::loop_isolation(false)]
pub fn parse_secs_to_ms(s: &str) -> (r: Option<u64>)
    ensures
        r matches Some(v) ==> spec_secs_text_ms(s@) == Some(v as int),
        r is None <==> spec_secs_text_ms(s@) is None,
{
    let n = s.unicode_len();
    let mut i: usize = 0;
    while i < n && s.get_char(i) != '.'
        invariant
            0 <= i <= n,
            n == s@.len(),
            forall|k: int| 0 <= k < i ==> s@[k] != '.',
        decreases n - i,
    {
        i = i + 1;
    }
    let split: usize = i;
    proof {
        lemma_dot_pos_agrees(s@, split as int);
    }
    if split == 0 || (split < n && n - split == 1) {
        return None;
    }
    let whole = match dec_val(s, 0, split) {
        Some(v) => v,
        None => {
            return None;
        },
    };
    if split == n {
        return Some(whole * 1000);
    }
    let mut j: usize = split + 1;
    while j < n
        invariant
            split + 1 <= j <= n,
            n == s@.len(),
            spec_digits_at(s@, split + 1, j as int),
        decreases n - j,
    {
        if digit_val(s.get_char(j)).is_none() {
            proof {
                assert(!spec_digits_at(s@, split + 1, n as int)) by {
                    if spec_digits_at(s@, split + 1, n as int) {
                        assert(spec_is_digit(s@[j as int]));
                    }
                }
            }
            return None;
        }
        j = j + 1;
    }
    let mut frac: u64 = 0;
    let d0 = match digit_val(s.get_char(split + 1)) {
        Some(v) => v as u64,
        None => {
            return None;
        },
    };
    frac = d0 * 100;
    if n - split >= 3 {
        let d1 = match digit_val(s.get_char(split + 2)) {
            Some(v) => v as u64,
            None => {
                return None;
            },
        };
        frac = frac + d1 * 10;
    }
    if n - split >= 4 {
        let d2 = match digit_val(s.get_char(split + 3)) {
            Some(v) => v as u64,
            None => {
                return None;
            },
        };
        frac = frac + d2;
    }
    Some(whole * 1000 + frac)
}

/// The scan that stops at the first dot finds exactly what `spec_secs_text_ms`
/// splits on.
proof fn lemma_dot_pos_agrees(s: Seq<char>, split: int)
    requires
        0 <= split <= s.len(),
        split < s.len() ==> s[split] == '.',
        forall|k: int| 0 <= k < split ==> s[k] != '.',
    ensures
        (exists|j: int| 0 <= j < s.len() && s[j] == '.') <==> split < s.len(),
        split < s.len() ==> (choose|j: int|
            0 <= j < s.len() && s[j] == '.' && (forall|k: int| 0 <= k < j ==> s[k] != '.'))
            == split,
{
    if split < s.len() {
        assert(0 <= split < s.len() && s[split] == '.');
        let w = choose|j: int|
            0 <= j < s.len() && s[j] == '.' && (forall|k: int| 0 <= k < j ==> s[k] != '.');
        assert(0 <= split < s.len() && s[split] == '.' && (forall|k: int|
            0 <= k < split ==> s[k] != '.'));
        if w != split {
            if w < split {
                assert(s[w] != '.');
            } else {
                assert(s[split] != '.');
            }
        }
    }
}

/// Derive the three response timestamps from the backend's reported fields:
/// the creation time as parsed, the start as creation plus queue time, the
/// finish as start plus compute time; a missing ingredient or an overflowing
/// sum leaves the derived value absent.
pub fn derive_timestamps(created_ms: Option<u64>, queue_ms: Option<u64>, compute_ms: Option<u64>) -> (r: (
    u64,
    Option<u64>,
    Option<u64>,
))
    ensures
        r.0 == (match created_ms {
            Some(c) => c,
            None => 0,
        }),
        r.1 == (match (created_ms, queue_ms) {
            (Some(c), Some(q)) => if c + q <= u64::MAX {
                Some((c + q) as u64)
            } else {
                None
            },
            _ => None,
        }),
        r.2 == (match (r.1, compute_ms) {
            (Some(st), Some(p)) => if st + p <= u64::MAX {
                Some((st + p) as u64)
            } else {
                None
            },
            _ => None,
        }),
{
    let created: u64 = match created_ms {
        Some(c) => c,
        None => 0,
    };
    let started: Option<u64> = match (created_ms, queue_ms) {
        (Some(c), Some(q)) => c.checked_add(q),
        _ => None,
    };
    let finished: Option<u64> = match (started, compute_ms) {
        (Some(st), Some(p)) => st.checked_add(p),
        _ => None,
    };
    (created, started, finished)
}

} // verus!
