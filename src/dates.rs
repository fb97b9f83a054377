use vstd::prelude::*;

use crate::error::{Error, ErrorKind};

verus! {

pub open spec fn is_digit(c: char) -> bool {
    '0' <= c && c <= '9'
}

/// `YYYY-MM-DDTHH:MM:SS` at the start of `s`.
pub open spec fn datetime_head(s: Seq<char>) -> bool {
    &&& s.len() >= 19
    &&& forall|i: int|
        0 <= i < 19 && i != 4 && i != 7 && i != 10 && i != 13 && i != 16 ==> is_digit(
            #[trigger] s[i],
        )
    &&& s[4] == '-'
    &&& s[7] == '-'
    &&& s[10] == 'T'
    &&& s[13] == ':'
    &&& s[16] == ':'
}

/// Nothing, or a dot and one to nine digits.
pub open spec fn fraction(s: Seq<char>) -> bool {
    ||| s.len() == 0
    ||| (2 <= s.len() <= 10 && s[0] == '.' && forall|i: int|
        1 <= i < s.len() ==> is_digit(#[trigger] s[i]))
}

/// A naive ISO date-time: `YYYY-MM-DDTHH:MM:SS` with optional fraction.
pub open spec fn naive_datetime(s: Seq<char>) -> bool {
    datetime_head(s) && fraction(s.subrange(19, s.len() as int))
}

/// `+00:00`.
pub open spec fn utc_offset_suffix() -> Seq<char> {
    seq!['+', '0', '0', ':', '0', '0']
}

/// A naive ISO date-time followed by `Z` or `+00:00`.
pub open spec fn utc_datetime(s: Seq<char>) -> bool {
    ||| (s.len() >= 1 && s[s.len() - 1] == 'Z' && naive_datetime(s.subrange(0, s.len() - 1)))
    ||| (s.len() >= 6 && s.subrange(s.len() - 6, s.len() as int) == utc_offset_suffix() && naive_datetime(
        s.subrange(0, s.len() - 6),
    ))
}

fn digit(c: char) -> (r: bool)
    ensures
        r == is_digit(c),
{
    '0' <= c && c <= '9'
}

fn matches_head(s: &Vec<char>) -> (r: bool)
    ensures
        r == datetime_head(s@),
{
    if s.len() < 19 {
        return false;
    }
    let mut i: usize = 0;
    while i < 19
        invariant
            s@.len() >= 19,
            i <= 19,
            forall|j: int|
                0 <= j < i && j != 4 && j != 7 && j != 10 && j != 13 && j != 16 ==> is_digit(
                    #[trigger] s@[j],
                ),
        decreases 19 - i,
    {
        if i != 4 && i != 7 && i != 10 && i != 13 && i != 16 && !digit(s[i]) {
            return false;
        }
        i = i + 1;
    }
    s[4] == '-' && s[7] == '-' && s[10] == 'T' && s[13] == ':' && s[16] == ':'
}

/// Whether `s[from..to]` is empty or a dot and one to nine digits.
fn matches_fraction(s: &Vec<char>, from: usize, to: usize) -> (r: bool)
    requires
        from <= to <= s@.len(),
    ensures
        r == fraction(s@.subrange(from as int, to as int)),
{
    let ghost f = s@.subrange(from as int, to as int);
    if from == to {
        return true;
    }
    if to - from < 2 || to - from > 10 || s[from] != '.' {
        return false;
    }
    let mut i: usize = from + 1;
    while i < to
        invariant
            from < i <= to <= s@.len(),
            f == s@.subrange(from as int, to as int),
            forall|j: int| 1 <= j < i - from ==> is_digit(#[trigger] f[j]),
        decreases to - i,
    {
        if !digit(s[i]) {
            assert(!is_digit(f[i - from]));
            return false;
        }
        i = i + 1;
    }
    true
}

fn matches_naive(s: &Vec<char>, to: usize) -> (r: bool)
    requires
        to <= s@.len(),
    ensures
        r == naive_datetime(s@.subrange(0, to as int)),
{
    let ghost p = s@.subrange(0, to as int);
    if to < 19 {
        return false;
    }
    let mut head: Vec<char> = Vec::new();
    let mut i: usize = 0;
    while i < 19
        invariant
            i <= 19 <= to <= s@.len(),
            head@ == s@.subrange(0, i as int),
        decreases 19 - i,
    {
        head.push(s[i]);
        i = i + 1;
    }
    let h = matches_head(&head);
    assert(datetime_head(p) == datetime_head(head@)) by {
        assert(forall|j: int| 0 <= j < 19 ==> p[j] == head@[j]);
    }
    let f = matches_fraction(s, 19, to);
    assert(p.subrange(19, p.len() as int) =~= s@.subrange(19, to as int));
    h && f
}

/// Whether `s` is a naive ISO date-time.
pub fn matches_naive_datetime(s: &Vec<char>) -> (r: bool)
    ensures
        r == naive_datetime(s@),
{
    let r = matches_naive(s, s.len());
    assert(s@.subrange(0, s@.len() as int) =~= s@);
    r
}

/// Whether `s` is an ISO date-time in UTC (`Z` or `+00:00`).
pub fn matches_utc_datetime(s: &Vec<char>) -> (r: bool)
    ensures
        r == utc_datetime(s@),
{
    let n = s.len();
    let z = n >= 1 && s[n - 1] == 'Z' && matches_naive(s, n - 1);
    if z {
        return true;
    }
    if n >= 6 {
        let tail_ok = s[n - 6] == '+' && s[n - 5] == '0' && s[n - 4] == '0' && s[n - 3] == ':'
            && s[n - 2] == '0' && s[n - 1] == '0';
        proof {
            let t = s@.subrange(n - 6, n as int);
            if tail_ok {
                assert(t =~= utc_offset_suffix());
            }
            if t == utc_offset_suffix() {
                assert(t[0] == '+' && t[1] == '0' && t[2] == '0' && t[3] == ':' && t[4] == '0'
                    && t[5] == '0');
            }
        }
        tail_ok && matches_naive(s, n - 6)
    } else {
        false
    }
}

/// The number that a run of decimal digits spells.
pub open spec fn digits_value(s: Seq<char>) -> nat
    decreases s.len(),
{
    if s.len() == 0 {
        0
    } else {
        digits_value(s.drop_last()) * 10 + ((s.last() as nat) - ('0' as nat)) as nat
    }
}

/// Days from 1970-01-01 to the given day of the proleptic Gregorian
/// calendar.
pub open spec fn days_from_civil(y: int, m: int, d: int) -> int {
    let yy = if m <= 2 {
        y - 1
    } else {
        y
    };
    let era = if yy >= 0 {
        yy / 400
    } else {
        (yy - 399) / 400
    };
    let yoe = yy - era * 400;
    let mp = if m > 2 {
        m - 3
    } else {
        m + 9
    };
    let doy = (153 * mp + 2) / 5 + d - 1;
    let doe = yoe * 365 + yoe / 4 - yoe / 100 + doy;
    era * 146097 + doe - 719468
}

/// Whether `y` is a leap year.
pub open spec fn is_leap(y: int) -> bool {
    y % 4 == 0 && (y % 100 != 0 || y % 400 == 0)
}

/// The number of days of month `m` of year `y`.
pub open spec fn days_in_month(y: int, m: int) -> int {
    if m == 2 {
        if is_leap(y) {
            29
        } else {
            28
        }
    } else if m == 4 || m == 6 || m == 9 || m == 11 {
        30
    } else {
        31
    }
}

/// The fields of a date-time that matches the grammar: year, month, day,
/// hour, minute, second, and the milliseconds of the fraction.
pub open spec fn datetime_fields(s: Seq<char>) -> (int, int, int, int, int, int, int) {
    let frac = s.subrange(19, s.len() as int);
    let ms_digits = if frac.len() == 0 {
        seq!['0', '0', '0']
    } else {
        (frac.drop_first() + seq!['0', '0', '0']).subrange(0, 3)
    };
    (
        digits_value(s.subrange(0, 4)) as int,
        digits_value(s.subrange(5, 7)) as int,
        digits_value(s.subrange(8, 10)) as int,
        digits_value(s.subrange(11, 13)) as int,
        digits_value(s.subrange(14, 16)) as int,
        digits_value(s.subrange(17, 19)) as int,
        digits_value(ms_digits) as int,
    )
}

/// The fields name a real instant: a month of the year, a day of that
/// month, and a time of day.
pub open spec fn fields_valid(f: (int, int, int, int, int, int, int)) -> bool {
    &&& 1 <= f.1 <= 12
    &&& 1 <= f.2 <= days_in_month(f.0, f.1)
    &&& f.3 < 24
    &&& f.4 < 60
    &&& f.5 < 60
}

/// Milliseconds since 1970-01-01T00:00:00 of the fields.
pub open spec fn fields_millis(f: (int, int, int, int, int, int, int)) -> int {
    (((days_from_civil(f.0, f.1, f.2) * 24 + f.3) * 60 + f.4) * 60 + f.5) * 1000 + f.6
}

pub open spec fn pow10(n: nat) -> nat
    decreases n,
{
    if n == 0 {
        1
    } else {
        10 * pow10((n - 1) as nat)
    }
}

proof fn lemma_pow10_small()
    ensures
        pow10(0) == 1,
        pow10(1) == 10,
        pow10(2) == 100,
        pow10(3) == 1000,
        pow10(4) == 10000,
{
    assert(pow10(0) == 1);
    assert(pow10(1) == 10);
    assert(pow10(2) == 100);
    assert(pow10(3) == 1000);
    assert(pow10(4) == 10000);
}

/// The number spelled by `s[from..to]`, all digits, at most four of them.
fn read_number(s: &Vec<char>, from: usize, to: usize) -> (r: u32)
    requires
        from <= to <= s@.len(),
        to - from <= 4,
        forall|i: int| from <= i < to ==> is_digit(#[trigger] s@[i]),
    ensures
        r == digits_value(s@.subrange(from as int, to as int)),
        r < pow10((to - from) as nat),
        r < 10000,
{
    let mut v: u32 = 0;
    let mut i: usize = from;
    while i < to
        invariant
            from <= i <= to <= s@.len(),
            to - from <= 4,
            forall|j: int| from <= j < to ==> is_digit(#[trigger] s@[j]),
            v == digits_value(s@.subrange(from as int, i as int)),
            v < pow10((i - from) as nat),
        decreases to - i,
    {
        let c = s[i];
        assert(is_digit(s@[i as int]));
        proof {
            let sub = s@.subrange(from as int, i + 1);
            assert(sub.drop_last() =~= s@.subrange(from as int, i as int));
            assert(sub.last() == c);
            assert(pow10(((i + 1) - from) as nat) == 10 * pow10((i - from) as nat));
            lemma_pow10_small();
        }
        v = v * 10 + (c as u32 - '0' as u32);
        i = i + 1;
    }
    proof {
        lemma_pow10_small();
    }
    v
}

/// The naive date-time inside a text of the given form: the whole text,
/// or the text without its UTC suffix.
pub open spec fn datetime_body(s: Seq<char>, utc: bool) -> Seq<char> {
    if !utc {
        s
    } else if s.len() >= 1 && s[s.len() - 1] == 'Z' {
        s.subrange(0, s.len() - 1)
    } else {
        s.subrange(0, s.len() - 6)
    }
}

/// Whether a text has the naive form, or with `utc` the UTC form.
pub open spec fn datetime_text(s: Seq<char>, utc: bool) -> bool {
    if utc {
        utc_datetime(s)
    } else {
        naive_datetime(s)
    }
}

fn is_leap_year(y: i64) -> (r: bool)
    requires
        0 <= y,
    ensures
        r == is_leap(y as int),
{
    y % 4 == 0 && (y % 100 != 0 || y % 400 == 0)
}

fn month_days(y: i64, m: i64) -> (r: i64)
    requires
        0 <= y,
    ensures
        r == days_in_month(y as int, m as int),
{
    if m == 2 {
        if is_leap_year(y) {
            29
        } else {
            28
        }
    } else if m == 4 || m == 6 || m == 9 || m == 11 {
        30
    } else {
        31
    }
}

/// Days from 1970-01-01, for a year of at most four digits.
fn civil_days(y: i64, m: i64, d: i64) -> (r: i64)
    requires
        0 <= y < 10000,
        1 <= m <= 12,
        1 <= d <= 31,
    ensures
        r == days_from_civil(y as int, m as int, d as int),
        -900000 <= r <= 3000000,
{
    let yy: i64 = if m <= 2 {
        y - 1
    } else {
        y
    };
    let shifted: i64 = yy + 400;
    let era: i64 = shifted / 400 - 1;
    assert(era == if yy >= 0 {
        yy as int / 400
    } else {
        (yy - 399) as int / 400
    });
    assert(-1 <= era <= 24);
    let yoe: i64 = yy - era * 400;
    assert(0 <= yoe < 400) by (nonlinear_arith)
        requires
            era == (yy + 400) / 400 - 1,
            -1 <= yy < 10000,
            yoe == yy - era * 400,
    ;
    let mp: i64 = if m > 2 {
        m - 3
    } else {
        m + 9
    };
    let doy: i64 = (153 * mp + 2) / 5 + d - 1;
    let doe: i64 = yoe * 365 + yoe / 4 - yoe / 100 + doy;
    assert(0 <= doe <= 146200);
    assert(-146097 <= era * 146097 <= 24 * 146097) by (nonlinear_arith)
        requires
            -1 <= era <= 24,
    ;
    era * 146097 + doe - 719468
}

/// The characters of a text.
pub fn text_chars(s: &str) -> (r: Vec<char>)
    ensures
        r@ == s@,
{
    let n = s.unicode_len();
    let mut chars: Vec<char> = Vec::new();
    let mut i: usize = 0;
    while i < n
        invariant
            n == s@.len(),
            i <= n,
            chars@ == s@.subrange(0, i as int),
        decreases n - i,
    {
        chars.push(s.get_char(i));
        i = i + 1;
    }
    assert(chars@ =~= s@);
    chars
}

/// The milliseconds of the fraction of a naive date-time `chars[..to]`.
fn read_millis(chars: &Vec<char>, to: usize) -> (r: i64)
    requires
        to <= chars@.len(),
        naive_datetime(chars@.subrange(0, to as int)),
    ensures
        r == datetime_fields(chars@.subrange(0, to as int)).6,
        0 <= r < 1000,
{
    let ghost body = chars@.subrange(0, to as int);
    let mut ms_digits: Vec<char> = Vec::new();
    let mut k: usize = 0;
    while k < 3
        invariant
            k <= 3,
            to <= chars@.len(),
            body == chars@.subrange(0, to as int),
            naive_datetime(body),
            ms_digits@.len() == k,
            forall|j: int| 0 <= j < k ==> is_digit(#[trigger] ms_digits@[j]),
            forall|j: int|
                0 <= j < k ==> #[trigger] ms_digits@[j] == if 20 + j < to {
                    chars@[20 + j]
                } else {
                    '0'
                },
        decreases 3 - k,
    {
        if 20 + k < to {
            let ghost f = body.subrange(19, to as int);
            assert(f[1 + k as int] == chars@[20 + k as int]);
            ms_digits.push(chars[20 + k]);
        } else {
            ms_digits.push('0');
        }
        k = k + 1;
    }
    let ms = read_number(&ms_digits, 0, 3) as i64;
    proof {
        let frac = body.subrange(19, body.len() as int);
        let expected = if frac.len() == 0 {
            seq!['0', '0', '0']
        } else {
            (frac.drop_first() + seq!['0', '0', '0']).subrange(0, 3)
        };
        assert(ms_digits@ =~= expected);
        assert(ms_digits@.subrange(0, 3) =~= ms_digits@);
    }
    proof {
        lemma_pow10_small();
    }
    ms
}

/// The fields of a naive date-time `chars[..to]`.
fn read_fields(chars: &Vec<char>, to: usize) -> (r: (i64, i64, i64, i64, i64, i64, i64))
    requires
        to <= chars@.len(),
        naive_datetime(chars@.subrange(0, to as int)),
    ensures
        (r.0 as int, r.1 as int, r.2 as int, r.3 as int, r.4 as int, r.5 as int, r.6 as int)
            == datetime_fields(chars@.subrange(0, to as int)),
        0 <= r.0 < 10000,
        0 <= r.6 < 1000,
{
    let ghost body = chars@.subrange(0, to as int);
    assert forall|j: int|
        0 <= j < 19 && j != 4 && j != 7 && j != 10 && j != 13 && j != 16 implies is_digit(
            #[trigger] chars@[j],
        ) by {
        assert(chars@[j] == body[j]);
    }
    let year = read_number(chars, 0, 4) as i64;
    let month = read_number(chars, 5, 7) as i64;
    let day = read_number(chars, 8, 10) as i64;
    let hour = read_number(chars, 11, 13) as i64;
    let minute = read_number(chars, 14, 16) as i64;
    let second = read_number(chars, 17, 19) as i64;
    let ms = read_millis(chars, to);
    proof {
        assert(body.subrange(0, 4) =~= chars@.subrange(0, 4));
        assert(body.subrange(5, 7) =~= chars@.subrange(5, 7));
        assert(body.subrange(8, 10) =~= chars@.subrange(8, 10));
        assert(body.subrange(11, 13) =~= chars@.subrange(11, 13));
        assert(body.subrange(14, 16) =~= chars@.subrange(14, 16));
        assert(body.subrange(17, 19) =~= chars@.subrange(17, 19));
    }
    (year, month, day, hour, minute, second, ms)
}

/// Milliseconds since 1970-01-01T00:00:00 of an ISO date-time. Without
/// `utc` the text is `YYYY-MM-DDTHH:MM:SS` with an optional fraction; with
/// it, the same followed by `Z` or `+00:00`. A date or time that does not
/// exist is invalid.
pub fn parse_datetime_millis(s: &str, utc: bool) -> (r: Result<i64, Error>)
    ensures
        r is Ok <==> datetime_text(s@, utc) && fields_valid(
            datetime_fields(datetime_body(s@, utc)),
        ),
        r is Ok ==> r->Ok_0 == fields_millis(datetime_fields(datetime_body(s@, utc))),
        r is Err ==> r->Err_0.kind == ErrorKind::Invalid,
{
    let chars = text_chars(s);
    let n = chars.len();
    let to: usize = if !utc {
        n
    } else if n >= 1 && chars[n - 1] == 'Z' {
        n - 1
    } else if n >= 6 {
        n - 6
    } else {
        0
    };
    let grammar_ok = if utc {
        matches_utc_datetime(&chars)
    } else {
        matches_naive_datetime(&chars)
    };
    if !grammar_ok {
        return Err(Error::new(ErrorKind::Invalid, "not an ISO date-time"));
    }
    assert(datetime_body(s@, utc) =~= chars@.subrange(0, to as int));
    let (year, month, day, hour, minute, second, ms) = read_fields(&chars, to);
    if month < 1 || month > 12 || day < 1 || day > month_days(year, month) || hour >= 24
        || minute >= 60 || second >= 60 {
        return Err(Error::new(ErrorKind::Invalid, "the date or time does not exist"));
    }
    let days = civil_days(year, month, day);
    assert(0 <= ms < 1000);
    Ok((((days * 24 + hour) * 60 + minute) * 60 + second) * 1000 + ms)
}


} // verus!
