use vstd::prelude::*;

verus! {

/// A UTC date and time to the microsecond: the moment a photo was imported
/// or an element created.
#[derive(Debug, Clone, Copy, PartialEq, Eq, Structural)]
pub struct Timestamp {
    pub year: u32,
    pub month: u32,
    pub day: u32,
    pub hour: u32,
    pub minute: u32,
    pub second: u32,
    pub micro: u32,
}

/// What the system clock reports, before it is checked against the range
/// that a `Timestamp` holds.
#[derive(Debug, Clone, Copy, PartialEq, Eq, Structural)]
pub struct ClockReading {
    pub year: i32,
    pub month: u32,
    pub day: u32,
    pub hour: u32,
    pub minute: u32,
    pub second: u32,
    /// Nanoseconds past the second; a leap second reads as 1_000_000_000 or more.
    pub nano: u32,
}

pub open spec fn is_leap_year(y: int) -> bool {
    (y % 4 == 0 && y % 100 != 0) || y % 400 == 0
}

pub open spec fn days_in_month(y: int, m: int) -> int {
    if m == 2 {
        if is_leap_year(y) {
            29
        } else {
            28
        }
    } else if m == 4 || m == 6 || m == 9 || m == 11 {
        30
    } else {
        31
    }
}

impl Timestamp {
    /// A real calendar date with a four-digit year, and a time of day.
    pub open spec fn wf(&self) -> bool {
        &&& self.year <= 9999
        &&& 1 <= self.month <= 12
        &&& 1 <= self.day <= days_in_month(self.year as int, self.month as int)
        &&& self.hour < 24
        &&& self.minute < 60
        &&& self.second < 60
        &&& self.micro < 1_000_000
    }
}

pub open spec fn pow10(n: nat) -> int
    decreases n,
{
    if n == 0 {
        1
    } else {
        10 * pow10((n - 1) as nat)
    }
}

pub open spec fn digit_char(d: int) -> char {
    if d == 0 {
        '0'
    } else if d == 1 {
        '1'
    } else if d == 2 {
        '2'
    } else if d == 3 {
        '3'
    } else if d == 4 {
        '4'
    } else if d == 5 {
        '5'
    } else if d == 6 {
        '6'
    } else if d == 7 {
        '7'
    } else if d == 8 {
        '8'
    } else {
        '9'
    }
}

/// The last `width` decimal digits of `v`, most significant first, padded with zeros.
pub open spec fn digits(v: int, width: nat) -> Seq<char>
    decreases width,
{
    if width == 0 {
        Seq::empty()
    } else {
        digits(v / 10, (width - 1) as nat).push(digit_char(v % 10))
    }
}

/// The text of a timestamp: `YYYY-MM-DD_HH-MM-SS-ffffff`, every field zero-padded.
pub open spec fn timestamp_text(t: Timestamp) -> Seq<char> {
    digits(t.year as int, 4) + seq!['-'] + digits(t.month as int, 2) + seq!['-'] + digits(
        t.day as int,
        2,
    ) + seq!['_'] + digits(t.hour as int, 2) + seq!['-'] + digits(t.minute as int, 2) + seq!['-']
        + digits(t.second as int, 2) + seq!['-'] + digits(t.micro as int, 6)
}

pub proof fn lemma_digits_len(v: int, width: nat)
    ensures
        digits(v, width).len() == width,
    decreases width,
{
    if width > 0 {
        lemma_digits_len(v / 10, (width - 1) as nat);
    }
}

proof fn lemma_digit_char_injective(a: int, b: int)
    requires
        0 <= a < 10,
        0 <= b < 10,
        digit_char(a) == digit_char(b),
    ensures
        a == b,
{
}

/// Two numbers below `10^width` with the same padded digits are equal.
pub proof fn lemma_digits_injective(a: int, b: int, width: nat)
    requires
        0 <= a < pow10(width),
        0 <= b < pow10(width),
        digits(a, width) == digits(b, width),
    ensures
        a == b,
    decreases width,
{
    if width > 0 {
        let w1 = (width - 1) as nat;
        let da = digits(a / 10, w1);
        let db = digits(b / 10, w1);
        lemma_digits_len(a / 10, w1);
        lemma_digits_len(b / 10, w1);
        assert(digits(a, width).last() == digit_char(a % 10));
        assert(digits(b, width).last() == digit_char(b % 10));
        lemma_digit_char_injective(a % 10, b % 10);
        assert(da =~= digits(a, width).drop_last());
        assert(db =~= digits(b, width).drop_last());
        lemma_digits_injective(a / 10, b / 10, w1);
    } else {
    }
}

pub proof fn lemma_pow10_small()
    ensures
        pow10(2) == 100,
        pow10(4) == 10000,
        pow10(6) == 1000000,
{
    reveal_with_fuel(pow10, 7);
}

pub proof fn lemma_timestamp_text_len(t: Timestamp)
    ensures
        timestamp_text(t).len() == 26,
{
    lemma_digits_len(t.year as int, 4);
    lemma_digits_len(t.month as int, 2);
    lemma_digits_len(t.day as int, 2);
    lemma_digits_len(t.hour as int, 2);
    lemma_digits_len(t.minute as int, 2);
    lemma_digits_len(t.second as int, 2);
    lemma_digits_len(t.micro as int, 6);
}

/// Where each field and separator stands in a timestamp's text.
pub proof fn lemma_text_layout(t: Timestamp)
    ensures
        timestamp_text(t).len() == 26,
        timestamp_text(t).subrange(0, 4) == digits(t.year as int, 4),
        timestamp_text(t).subrange(5, 7) == digits(t.month as int, 2),
        timestamp_text(t).subrange(8, 10) == digits(t.day as int, 2),
        timestamp_text(t).subrange(11, 13) == digits(t.hour as int, 2),
        timestamp_text(t).subrange(14, 16) == digits(t.minute as int, 2),
        timestamp_text(t).subrange(17, 19) == digits(t.second as int, 2),
        timestamp_text(t).subrange(20, 26) == digits(t.micro as int, 6),
        timestamp_text(t)[4] == '-',
        timestamp_text(t)[7] == '-',
        timestamp_text(t)[10] == '_',
        timestamp_text(t)[13] == '-',
        timestamp_text(t)[16] == '-',
        timestamp_text(t)[19] == '-',
{
    let s = timestamp_text(t);
    lemma_timestamp_text_len(t);
    lemma_digits_len(t.year as int, 4);
    lemma_digits_len(t.month as int, 2);
    lemma_digits_len(t.day as int, 2);
    lemma_digits_len(t.hour as int, 2);
    lemma_digits_len(t.minute as int, 2);
    lemma_digits_len(t.second as int, 2);
    lemma_digits_len(t.micro as int, 6);
    assert(s.subrange(0, 4) =~= digits(t.year as int, 4));
    assert(s.subrange(5, 7) =~= digits(t.month as int, 2));
    assert(s.subrange(8, 10) =~= digits(t.day as int, 2));
    assert(s.subrange(11, 13) =~= digits(t.hour as int, 2));
    assert(s.subrange(14, 16) =~= digits(t.minute as int, 2));
    assert(s.subrange(17, 19) =~= digits(t.second as int, 2));
    assert(s.subrange(20, 26) =~= digits(t.micro as int, 6));
}

/// Distinct well-formed timestamps have distinct texts.
pub proof fn lemma_timestamp_text_injective(t1: Timestamp, t2: Timestamp)
    requires
        t1.wf(),
        t2.wf(),
        timestamp_text(t1) == timestamp_text(t2),
    ensures
        t1 == t2,
{
    lemma_text_layout(t1);
    lemma_text_layout(t2);
    lemma_pow10_small();
    lemma_digits_injective(t1.year as int, t2.year as int, 4);
    lemma_digits_injective(t1.month as int, t2.month as int, 2);
    lemma_digits_injective(t1.day as int, t2.day as int, 2);
    lemma_digits_injective(t1.hour as int, t2.hour as int, 2);
    lemma_digits_injective(t1.minute as int, t2.minute as int, 2);
    lemma_digits_injective(t1.second as int, t2.second as int, 2);
    lemma_digits_injective(t1.micro as int, t2.micro as int, 6);
}

pub open spec fn is_digit(c: char) -> bool {
    '0' <= c && c <= '9'
}

pub open spec fn all_digits(s: Seq<char>) -> bool {
    forall|i: int| 0 <= i < s.len() ==> is_digit(#[trigger] s[i])
}

/// The number that a string of decimal digits writes.
pub open spec fn digits_value(s: Seq<char>) -> int
    decreases s.len(),
{
    if s.len() == 0 {
        0
    } else {
        digits_value(s.drop_last()) * 10 + (s.last() as int - '0' as int)
    }
}

proof fn lemma_digit_char_of_value(c: char)
    requires
        is_digit(c),
    ensures
        digit_char(c as int - '0' as int) == c,
{
}

proof fn lemma_digit_char_is_digit(d: int)
    requires
        0 <= d < 10,
    ensures
        is_digit(digit_char(d)),
        digit_char(d) as int - '0' as int == d,
{
}

/// Reading digits back gives the digits.
proof fn lemma_digits_of_value(s: Seq<char>)
    requires
        all_digits(s),
    ensures
        digits(digits_value(s), s.len()) == s,
        0 <= digits_value(s) < pow10(s.len()),
    decreases s.len(),
{
    if s.len() > 0 {
        let p = s.drop_last();
        assert(all_digits(p));
        lemma_digits_of_value(p);
        let d = s.last() as int - '0' as int;
        let v = digits_value(s);
        assert(v == digits_value(p) * 10 + d);
        assert(v / 10 == digits_value(p)) by (nonlinear_arith)
            requires
                v == digits_value(p) * 10 + d,
                0 <= d < 10,
        ;
        assert(v % 10 == d) by (nonlinear_arith)
            requires
                v == digits_value(p) * 10 + d,
                0 <= d < 10,
        ;
        lemma_digit_char_of_value(s.last());
        assert(digits(v, s.len()) =~= s);
        assert(v < pow10(s.len())) by (nonlinear_arith)
            requires
                v == digits_value(p) * 10 + d,
                0 <= d < 10,
                digits_value(p) < pow10(p.len()),
                pow10(s.len()) == 10 * pow10(p.len()),
        ;
    }
}

/// Writing a number and reading it back gives the number.
pub proof fn lemma_value_of_digits(v: int, width: nat)
    requires
        0 <= v < pow10(width),
    ensures
        all_digits(digits(v, width)),
        digits_value(digits(v, width)) == v,
    decreases width,
{
    if width > 0 {
        let w1 = (width - 1) as nat;
        assert(v / 10 < pow10(w1)) by (nonlinear_arith)
            requires
                v < pow10(width),
                pow10(width) == 10 * pow10(w1),
                0 <= v,
        ;
        lemma_value_of_digits(v / 10, w1);
        lemma_digit_char_is_digit(v % 10);
        let s = digits(v, width);
        assert(s.drop_last() =~= digits(v / 10, w1));
    } else {
        assert(v == 0);
    }
}

/// The timestamp whose fields a 26-character text writes at their places.
pub open spec fn fields_of(s: Seq<char>) -> Timestamp {
    Timestamp {
        year: digits_value(s.subrange(0, 4)) as u32,
        month: digits_value(s.subrange(5, 7)) as u32,
        day: digits_value(s.subrange(8, 10)) as u32,
        hour: digits_value(s.subrange(11, 13)) as u32,
        minute: digits_value(s.subrange(14, 16)) as u32,
        second: digits_value(s.subrange(17, 19)) as u32,
        micro: digits_value(s.subrange(20, 26)) as u32,
    }
}

/// `s` has the shape of a timestamp's text, and the fields it writes make a
/// real date and time.
pub open spec fn well_formed_text(s: Seq<char>) -> bool {
    &&& s.len() == 26
    &&& s[4] == '-' && s[7] == '-' && s[10] == '_' && s[13] == '-' && s[16] == '-' && s[19] == '-'
    &&& all_digits(s.subrange(0, 4))
    &&& all_digits(s.subrange(5, 7))
    &&& all_digits(s.subrange(8, 10))
    &&& all_digits(s.subrange(11, 13))
    &&& all_digits(s.subrange(14, 16))
    &&& all_digits(s.subrange(17, 19))
    &&& all_digits(s.subrange(20, 26))
    &&& fields_of(s).wf()
}

proof fn lemma_parse_sound(s: Seq<char>)
    requires
        well_formed_text(s),
    ensures
        timestamp_text(fields_of(s)) == s,
{
    let t = fields_of(s);
    lemma_pow10_small();
    lemma_digits_of_value(s.subrange(0, 4));
    lemma_digits_of_value(s.subrange(5, 7));
    lemma_digits_of_value(s.subrange(8, 10));
    lemma_digits_of_value(s.subrange(11, 13));
    lemma_digits_of_value(s.subrange(14, 16));
    lemma_digits_of_value(s.subrange(17, 19));
    lemma_digits_of_value(s.subrange(20, 26));
    lemma_text_layout(t);
    let u = timestamp_text(t);
    assert forall|i: int| 0 <= i < 26 implies u[i] == s[i] by {
        if i < 4 {
            assert(u.subrange(0, 4)[i] == s.subrange(0, 4)[i]);
        } else if 5 <= i < 7 {
            assert(u.subrange(5, 7)[i - 5] == s.subrange(5, 7)[i - 5]);
        } else if 8 <= i < 10 {
            assert(u.subrange(8, 10)[i - 8] == s.subrange(8, 10)[i - 8]);
        } else if 11 <= i < 13 {
            assert(u.subrange(11, 13)[i - 11] == s.subrange(11, 13)[i - 11]);
        } else if 14 <= i < 16 {
            assert(u.subrange(14, 16)[i - 14] == s.subrange(14, 16)[i - 14]);
        } else if 17 <= i < 19 {
            assert(u.subrange(17, 19)[i - 17] == s.subrange(17, 19)[i - 17]);
        } else if 20 <= i < 26 {
            assert(u.subrange(20, 26)[i - 20] == s.subrange(20, 26)[i - 20]);
        }
    }
    assert(u =~= s);
}

proof fn lemma_parse_complete(t: Timestamp)
    requires
        t.wf(),
    ensures
        well_formed_text(timestamp_text(t)),
        fields_of(timestamp_text(t)) == t,
{
    lemma_pow10_small();
    lemma_text_layout(t);
    lemma_value_of_digits(t.year as int, 4);
    lemma_value_of_digits(t.month as int, 2);
    lemma_value_of_digits(t.day as int, 2);
    lemma_value_of_digits(t.hour as int, 2);
    lemma_value_of_digits(t.minute as int, 2);
    lemma_value_of_digits(t.second as int, 2);
    lemma_value_of_digits(t.micro as int, 6);
}

proof fn lemma_pow10_step(i: nat)
    requires
        i < 6,
    ensures
        pow10(i) <= 100000,
        pow10(i + 1) == 10 * pow10(i),
{
    reveal_with_fuel(pow10, 7);
}

/// Reads the `width` decimal digits of `s` that start at `start`.
fn read_digits(s: &str, start: usize, width: usize) -> (r: Option<u32>)
    requires
        start + width <= s@.len(),
        s@.len() <= 26,
        width <= 6,
    ensures
        all_digits(s@.subrange(start as int, start + width)) <==> r is Some,
        r matches Some(v) ==> v as int == digits_value(s@.subrange(start as int, start + width)),
{
    let mut v: u32 = 0;
    let mut i: usize = 0;
    while i < width
        invariant
            i <= width,
            start + width <= s@.len(),
            s@.len() <= 26,
            width <= 6,
            all_digits(s@.subrange(start as int, start + i)),
            v as int == digits_value(s@.subrange(start as int, start + i)),
            v < pow10(i as nat),
        decreases width - i,
    {
        let c = s.get_char(start + i);
        if c < '0' || c > '9' {
            assert(s@.subrange(start as int, start + width)[i as int] == c);
            return None;
        }
        let ghost next = s@.subrange(start as int, start + i + 1);
        assert(next.drop_last() =~= s@.subrange(start as int, start + i));
        assert(next.last() == c);
        proof {
            lemma_pow10_step(i as nat);
        }
        v = v * 10 + (c as u32 - '0' as u32);
        i = i + 1;
    }
    Some(v)
}

fn days_in_month_of(year: u32, month: u32) -> (r: u32)
    requires
        1 <= month <= 12,
    ensures
        r as int == days_in_month(year as int, month as int),
{
    if month == 2 {
        if (year % 4 == 0 && year % 100 != 0) || year % 400 == 0 {
            29
        } else {
            28
        }
    } else if month == 4 || month == 6 || month == 9 || month == 11 {
        30
    } else {
        31
    }
}

fn parse_fields(s: &str) -> (r: Option<Timestamp>)
    ensures
        r is Some <==> well_formed_text(s@),
        r matches Some(t) ==> t == fields_of(s@),
{
    if s.unicode_len() != 26 {
        return None;
    }
    if s.get_char(4) != '-' || s.get_char(7) != '-' || s.get_char(10) != '_' || s.get_char(13)
        != '-' || s.get_char(16) != '-' || s.get_char(19) != '-' {
        return None;
    }
    let year = match read_digits(s, 0, 4) {
        Some(v) => v,
        None => {
            return None;
        },
    };
    let month = match read_digits(s, 5, 2) {
        Some(v) => v,
        None => {
            return None;
        },
    };
    let day = match read_digits(s, 8, 2) {
        Some(v) => v,
        None => {
            return None;
        },
    };
    let hour = match read_digits(s, 11, 2) {
        Some(v) => v,
        None => {
            return None;
        },
    };
    let minute = match read_digits(s, 14, 2) {
        Some(v) => v,
        None => {
            return None;
        },
    };
    let second = match read_digits(s, 17, 2) {
        Some(v) => v,
        None => {
            return None;
        },
    };
    let micro = match read_digits(s, 20, 6) {
        Some(v) => v,
        None => {
            return None;
        },
    };
    proof {
        lemma_pow10_small();
        lemma_digits_of_value(s@.subrange(0, 4));
        lemma_digits_of_value(s@.subrange(20, 26));
    }
    if month < 1 || month > 12 {
        return None;
    }
    if day < 1 || day > days_in_month_of(year, month) {
        return None;
    }
    if hour >= 24 || minute >= 60 || second >= 60 {
        return None;
    }
    Some(Timestamp { year, month, day, hour, minute, second, micro })
}

impl Timestamp {
    /// Reads a timestamp back from its text. This succeeds on exactly the
    /// texts of well-formed timestamps.
    pub fn parse(s: &str) -> (r: Option<Timestamp>)
        ensures
            r matches Some(t) ==> t.wf() && timestamp_text(t) == s@,
            forall|t: Timestamp| t.wf() && timestamp_text(t) == s@ ==> r == Some(t),
    {
        let r = parse_fields(s);
        proof {
            if r is Some {
                lemma_parse_sound(s@);
            }
            assert forall|t: Timestamp| t.wf() && timestamp_text(t) == s@ implies r == Some(t) by {
                lemma_parse_complete(t);
            }
        }
        r
    }
}

/// Appends the last `width` digits of `v`, zero-padded.
fn append_digits(out: &mut String, v: u32, width: u32)
    ensures
        final(out)@ == old(out)@ + digits(v as int, width as nat),
    decreases width,
{
    if width == 0 {
        assert(old(out)@ + digits(v as int, 0) =~= old(out)@);
        return ;
    }
    append_digits(out, v / 10, width - 1);
    let table: &str = "0123456789";
    proof {
        reveal_strlit("0123456789");
    }
    let d = (v % 10) as usize;
    let one = table.substring_char(d, d + 1);
    assert(one@ =~= seq![digit_char(d as int)]);
    out.append(one);
    assert(final(out)@ =~= old(out)@ + digits(v as int, width as nat));
}

fn append_str(out: &mut String, s: &str)
    ensures
        final(out)@ == old(out)@ + s@,
{
    out.append(s);
}

impl Timestamp {
    /// The timestamp as text: `YYYY-MM-DD_HH-MM-SS-ffffff`.
    pub fn format(&self) -> (r: String)
        ensures
            r@ == timestamp_text(*self),
    {
        let mut out = String::new();
        proof {
            reveal_strlit("-");
            reveal_strlit("_");
        }
        append_digits(&mut out, self.year, 4);
        append_str(&mut out, "-");
        append_digits(&mut out, self.month, 2);
        append_str(&mut out, "-");
        append_digits(&mut out, self.day, 2);
        append_str(&mut out, "_");
        append_digits(&mut out, self.hour, 2);
        append_str(&mut out, "-");
        append_digits(&mut out, self.minute, 2);
        append_str(&mut out, "-");
        append_digits(&mut out, self.second, 2);
        append_str(&mut out, "-");
        append_digits(&mut out, self.micro, 6);
        assert(out@ =~= timestamp_text(*self));
        out
    }

    /// Checks a clock reading against the range of a timestamp. The fraction
    /// keeps whole microseconds, and a leap second's excess is dropped.
    pub fn from_clock(c: ClockReading) -> (r: Option<Timestamp>)
        requires
            1 <= c.month <= 12,
            1 <= c.day <= days_in_month(c.year as int, c.month as int),
            c.hour < 24,
            c.minute < 60,
            c.second < 60,
        ensures
            (0 <= c.year <= 9999) <==> r is Some,
            r matches Some(t) ==> t.wf() && t == (Timestamp {
                year: c.year as u32,
                month: c.month,
                day: c.day,
                hour: c.hour,
                minute: c.minute,
                second: c.second,
                micro: (c.nano / 1000) % 1_000_000,
            }),
    {
        if c.year < 0 || c.year > 9999 {
            return None;
        }
        Some(
            Timestamp {
                year: c.year as u32,
                month: c.month,
                day: c.day,
                hour: c.hour,
                minute: c.minute,
                second: c.second,
                micro: (c.nano / 1000) % 1_000_000,
            },
        )
    }

    /// The time now in UTC, or `None` where the system clock cannot be read
    /// as a date (it reads before 1970, or past the calendar's range) or its
    /// year has more than four digits.
    pub fn now() -> (r: Option<Timestamp>)
        ensures
            r matches Some(t) ==> t.wf(),
    {
        match clock_reading() {
            Some(c) => Timestamp::from_clock(c),
            None => None,
        }
    }
}

/// The system clock as a calendar date and time of day in UTC, or `None`
/// where it cannot be read as one.
pub fn clock_reading() -> (r: Option<ClockReading>)
    ensures
        r matches Some(c) ==> {
            &&& 1 <= c.month <= 12
            &&& 1 <= c.day <= days_in_month(c.year as int, c.month as int)
            &&& c.hour < 24
            &&& c.minute < 60
            &&& c.second < 60
        },
{
    match seconds_since_epoch() {
        Some((secs, nanos)) => {
            if secs > i64::MAX as u64 {
                None
            } else {
                utc_reading(secs as i64, nanos)
            }
        },
        None => None,
    }
}

/// Relies on std's `SystemTime::now` and `SystemTime::duration_since` with
/// `UNIX_EPOCH`: whole seconds since 1970 and the nanoseconds past them, which
/// a `Duration` keeps below one second; `None` where the clock reads before 1970.
#[verifier::external_body]
fn seconds_since_epoch() -> (r: Option<(u64, u32)>)
    ensures
        r matches Some(d) ==> d.1 < 1_000_000_000,
{
    match std::time::SystemTime::now().duration_since(std::time::UNIX_EPOCH) {
        Ok(d) => Some((d.as_secs(), d.subsec_nanos())),
        Err(_) => None,
    }
}

/// Relies on chrono's `DateTime::from_timestamp`: the UTC date and time that
/// many seconds and nanoseconds after 1970 began, or `None` out of its range.
/// A `NaiveDateTime` holds a real calendar date and a time of day.
#[verifier::external_body]
fn utc_reading(secs: i64, nanos: u32) -> (r: Option<ClockReading>)
    ensures
        r matches Some(c) ==> {
            &&& 1 <= c.month <= 12
            &&& 1 <= c.day <= days_in_month(c.year as int, c.month as int)
            &&& c.hour < 24
            &&& c.minute < 60
            &&& c.second < 60
            &&& c.nano < 2_000_000_000
        },
{
    match chrono::DateTime::from_timestamp(secs, nanos) {
        Some(t) => {
            let n = t.naive_utc();
            Some(ClockReading {
                year: chrono::Datelike::year(&n),
                month: chrono::Datelike::month(&n),
                day: chrono::Datelike::day(&n),
                hour: chrono::Timelike::hour(&n),
                minute: chrono::Timelike::minute(&n),
                second: chrono::Timelike::second(&n),
                nano: chrono::Timelike::nanosecond(&n),
            })
        },
        None => None,
    }
}

} // verus!
