//! Text round-trip codecs for cell values.
//!
//! Each editable cell type pairs a pure `format` (value to display text) with
//! a pure `parse` (committed text back to a value). The default formats are
//! type-specific fixed patterns — calendar date `YYYY-MM-DD`, clock time
//! `HH:MM:SS`, timestamp `YYYY-MM-DDTHH:MM:SS`, UTC timestamp with a
//! `+00:00` suffix — and parsing the formatted text always restores the
//! value exactly ([`CellTextCodec::lemma_round_trip`]). Custom per-column
//! format strings are handled by the [`crate::strftime`] module.

use vstd::prelude::*;
use vstd::string::StrSliceExecFns;
use vstd::string::StringExecFns;

verus! {

/// Whether `c` is a decimal digit.
pub open spec fn is_digit_char(c: char) -> bool {
    '0' <= c && c <= '9'
}

/// Numeric value of a decimal digit character, or -1 for any other character.
pub open spec fn digit_val(c: char) -> int {
    if is_digit_char(c) {
        c as int - '0' as int
    } else {
        -1
    }
}

/// The decimal digit character for a value in `0..=9` (and '9' above that).
pub open spec fn digit_char(d: int) -> char {
    if d == 0 {
        '0'
    } else if d == 1 {
        '1'
    } else if d == 2 {
        '2'
    } else if d == 3 {
        '3'
    } else if d == 4 {
        '4'
    } else if d == 5 {
        '5'
    } else if d == 6 {
        '6'
    } else if d == 7 {
        '7'
    } else if d == 8 {
        '8'
    } else {
        '9'
    }
}

/// `digit_char` and `digit_val` invert each other on `0..=9`.
pub proof fn lemma_digit_char_val(d: int)
    requires
        0 <= d <= 9,
    ensures
        is_digit_char(digit_char(d)),
        digit_val(digit_char(d)) == d,
{
}

/// Two-character zero-padded decimal rendering of a value below 100.
pub open spec fn spec_two_digits(n: int) -> Seq<char> {
    seq![digit_char(n / 10), digit_char(n % 10)]
}

/// Four-character zero-padded decimal rendering of a value below 10000.
pub open spec fn spec_four_digits(n: int) -> Seq<char> {
    seq![
        digit_char(n / 1000),
        digit_char((n / 100) % 10),
        digit_char((n / 10) % 10),
        digit_char(n % 10),
    ]
}

/// Value of the two digit characters of `s` at `i` and `i + 1`, or -1 if one
/// of them is not a digit.
pub open spec fn spec_parse_two(s: Seq<char>, i: int) -> int
    recommends
        0 <= i,
        i + 2 <= s.len(),
{
    if is_digit_char(s[i]) && is_digit_char(s[i + 1]) {
        10 * digit_val(s[i]) + digit_val(s[i + 1])
    } else {
        -1
    }
}

/// Value of the four digit characters of `s` starting at `i`, or -1 if one of
/// them is not a digit.
pub open spec fn spec_parse_four(s: Seq<char>, i: int) -> int
    recommends
        0 <= i,
        i + 4 <= s.len(),
{
    if is_digit_char(s[i]) && is_digit_char(s[i + 1]) && is_digit_char(s[i + 2]) && is_digit_char(
        s[i + 3],
    ) {
        1000 * digit_val(s[i]) + 100 * digit_val(s[i + 1]) + 10 * digit_val(s[i + 2]) + digit_val(
            s[i + 3],
        )
    } else {
        -1
    }
}

/// Parsing the two-digit rendering of `n` gives `n` back.
pub proof fn lemma_two_digits_round_trip(n: int)
    requires
        0 <= n < 100,
    ensures
        spec_parse_two(spec_two_digits(n), 0) == n,
{
    lemma_digit_char_val(n / 10);
    lemma_digit_char_val(n % 10);
}

/// A value below 10000 is the weighted sum of its four decimal digits.
proof fn lemma_four_digit_decomposition(n: int)
    requires
        0 <= n < 10000,
    ensures
        1000 * (n / 1000) + 100 * ((n / 100) % 10) + 10 * ((n / 10) % 10) + n % 10 == n,
{
    vstd::arithmetic::div_mod::lemma_fundamental_div_mod(n, 10);
    vstd::arithmetic::div_mod::lemma_fundamental_div_mod(n / 10, 10);
    vstd::arithmetic::div_mod::lemma_fundamental_div_mod(n / 100, 10);
    vstd::arithmetic::div_mod::lemma_div_denominator(n, 10, 10);
    vstd::arithmetic::div_mod::lemma_div_denominator(n, 100, 10);
}

/// Parsing the four-digit rendering of `n` gives `n` back.
pub proof fn lemma_four_digits_round_trip(n: int)
    requires
        0 <= n < 10000,
    ensures
        spec_parse_four(spec_four_digits(n), 0) == n,
{
    lemma_four_digit_decomposition(n);
    lemma_digit_char_val(n / 1000);
    lemma_digit_char_val((n / 100) % 10);
    lemma_digit_char_val((n / 10) % 10);
    lemma_digit_char_val(n % 10);
}

/// The decimal digit character for `d`, as executable code.
fn digit_to_char(d: u8) -> (c: char)
    requires
        d <= 9,
    ensures
        c == digit_char(d as int),
{
    if d == 0 {
        '0'
    } else if d == 1 {
        '1'
    } else if d == 2 {
        '2'
    } else if d == 3 {
        '3'
    } else if d == 4 {
        '4'
    } else if d == 5 {
        '5'
    } else if d == 6 {
        '6'
    } else if d == 7 {
        '7'
    } else if d == 8 {
        '8'
    } else {
        '9'
    }
}

/// The digit value of `c`, or `None` for a non-digit.
fn char_to_digit(c: char) -> (r: Option<u8>)
    ensures
        match r {
            Some(d) => is_digit_char(c) && d as int == digit_val(c),
            None => !is_digit_char(c),
        },
{
    let u = c as u32;
    if 48 <= u && u <= 57 {
        Some((u - 48) as u8)
    } else {
        None
    }
}

/// Append the two-digit rendering of `n` to `out`.
fn push_two_digits(out: &mut Vec<char>, n: u8)
    requires
        n < 100,
    ensures
        final(out)@ == old(out)@ + spec_two_digits(n as int),
{
    out.push(digit_to_char(n / 10));
    out.push(digit_to_char(n % 10));
    assert(final(out)@ =~= old(out)@ + spec_two_digits(n as int));
}

/// Append the four-digit rendering of `n` to `out`.
fn push_four_digits(out: &mut Vec<char>, n: u16)
    requires
        n < 10000,
    ensures
        final(out)@ == old(out)@ + spec_four_digits(n as int),
{
    out.push(digit_to_char((n / 1000) as u8));
    out.push(digit_to_char(((n / 100) % 10) as u8));
    out.push(digit_to_char(((n / 10) % 10) as u8));
    out.push(digit_to_char((n % 10) as u8));
    assert(final(out)@ =~= old(out)@ + spec_four_digits(n as int));
}

/// Value of the two digit characters of `text` at `i`, or `None` if one is
/// not a digit.
fn read_two_digits(text: &str, i: usize) -> (r: Option<u8>)
    requires
        i + 2 <= text@.len() <= usize::MAX,
    ensures
        match r {
            Some(v) => v as int == spec_parse_two(text@, i as int) && v < 100,
            None => spec_parse_two(text@, i as int) == -1,
        },
{
    let c0 = char_to_digit(text.get_char(i));
    let c1 = char_to_digit(text.get_char(i + 1));
    match (c0, c1) {
        (Some(d0), Some(d1)) => Some(10 * d0 + d1),
        _ => None,
    }
}

/// Value of the four digit characters of `text` at `i`, or `None` if one is
/// not a digit.
fn read_four_digits(text: &str, i: usize) -> (r: Option<u16>)
    requires
        i + 4 <= text@.len() <= usize::MAX,
    ensures
        match r {
            Some(v) => v as int == spec_parse_four(text@, i as int) && v < 10000,
            None => spec_parse_four(text@, i as int) == -1,
        },
{
    let c0 = char_to_digit(text.get_char(i));
    let c1 = char_to_digit(text.get_char(i + 1));
    let c2 = char_to_digit(text.get_char(i + 2));
    let c3 = char_to_digit(text.get_char(i + 3));
    match (c0, c1, c2, c3) {
        (Some(d0), Some(d1), Some(d2), Some(d3)) => Some(
            1000 * (d0 as u16) + 100 * (d1 as u16) + 10 * (d2 as u16) + (d3 as u16),
        ),
        _ => None,
    }
}

/// Relies on `String: FromIterator<char>`: collecting chars yields a string
/// whose characters are exactly that sequence.
#[verifier::external_body]
fn chars_to_string(chars: &Vec<char>) -> (r: String)
    ensures
        r@ == chars@,
{
    chars.iter().collect()
}

/// A year divisible by 4 is a leap year, except century years not divisible
/// by 400.
pub open spec fn spec_leap_year(y: int) -> bool {
    y % 4 == 0 && (y % 100 != 0 || y % 400 == 0)
}

/// Number of days of month `m` (1-based) in year `y`.
pub open spec fn spec_days_in_month(y: int, m: int) -> int {
    if m == 2 {
        if spec_leap_year(y) {
            29
        } else {
            28
        }
    } else if m == 4 || m == 6 || m == 9 || m == 11 {
        30
    } else {
        31
    }
}

/// Number of days of month `month` (1-based) in year `year`.
pub fn days_in_month(year: u16, month: u8) -> (d: u8)
    ensures
        d as int == spec_days_in_month(year as int, month as int),
        28 <= d <= 31,
{
    if month == 2 {
        if year % 4 == 0 && (year % 100 != 0 || year % 400 == 0) {
            29
        } else {
            28
        }
    } else if month == 4 || month == 6 || month == 9 || month == 11 {
        30
    } else {
        31
    }
}

/// A calendar date: a proleptic Gregorian year within `0..=9999`, a 1-based
/// month, and a 1-based day valid for that month.
#[derive(Clone, Copy, Debug, PartialEq, Eq, Structural)]
pub struct CalendarDate {
    pub year: u16,
    pub month: u8,
    pub day: u8,
}

/// A time of day in whole seconds (no leap seconds).
#[derive(Clone, Copy, Debug, PartialEq, Eq, Structural)]
pub struct ClockTime {
    pub hour: u8,
    pub minute: u8,
    pub second: u8,
}

/// A calendar date combined with a time of day, with no time zone attached.
#[derive(Clone, Copy, Debug, PartialEq, Eq, Structural)]
pub struct Timestamp {
    pub date: CalendarDate,
    pub time: ClockTime,
}

/// A timestamp fixed to the UTC time zone.
#[derive(Clone, Copy, Debug, PartialEq, Eq, Structural)]
pub struct UtcTimestamp {
    pub datetime: Timestamp,
}

/// The pure format/parse pair of one editable cell type: `format` renders the
/// value with the type's default pattern, `parse` reconstructs a value from
/// committed text, and the two invert each other on every well-formed value.
pub trait CellTextCodec: Sized {
    /// The type's validity invariant.
    spec fn wf(&self) -> bool;

    /// The default-format rendering of the value.
    spec fn spec_format(&self) -> Seq<char>;

    /// The value a text denotes under the default format, if any: the
    /// exact zero-padded rendering of some value, or any lenient form the
    /// default pattern's parser accepts (unpadded numbers; for the UTC type,
    /// any offset, normalized to UTC).
    spec fn spec_parse(text: Seq<char>) -> Option<Self>;

    /// The value a text denotes under the custom format string `fmt`, if any.
    spec fn spec_parse_with(text: Seq<char>, fmt: Seq<char>) -> Option<Self>;

    /// The rendering of the value under the custom format string `fmt`, if
    /// `fmt` is a format string the renderer accepts.
    spec fn spec_format_with(&self, fmt: Seq<char>) -> Option<Seq<char>>;

    /// Whether the value satisfies the type's validity invariant, as
    /// executable code.
    fn is_well_formed(&self) -> (r: bool)
        ensures
            r == self.wf(),
    ;

    /// Render the value with the type's default format.
    fn format_text(&self) -> (t: String)
        requires
            self.wf(),
        ensures
            t@ == self.spec_format(),
    ;

    /// Parse a value from text in the type's default format: first the
    /// strict rendered form, then the default pattern's lenient parser.
    /// Returns `None` exactly on text that denotes no value.
    fn parse_text(text: &str) -> (r: Option<Self>)
        ensures
            r == Self::spec_parse(text@),
            r matches Some(v) ==> v.wf(),
    ;

    /// Render the value with a custom format string; `None` when the
    /// renderer rejects the format string.
    fn format_text_with(&self, fmt: &str) -> (r: Option<String>)
        requires
            self.wf(),
        ensures
            match r {
                Some(t) => self.spec_format_with(fmt@) == Some(t@),
                None => self.spec_format_with(fmt@) is None,
            },
    ;

    /// Parse a value from text under a custom format string. Returns `None`
    /// exactly on text that denotes no value under that format.
    fn parse_text_with(text: &str, fmt: &str) -> (r: Option<Self>)
        ensures
            r == Self::spec_parse_with(text@, fmt@),
            r matches Some(v) ==> v.wf(),
    ;

    /// The round trip law: parsing the default-format rendering of any
    /// well-formed value restores the value exactly.
    proof fn lemma_round_trip(&self)
        requires
            self.wf(),
        ensures
            Self::spec_parse(self.spec_format()) == Some(*self),
    ;
}

/// The default date pattern (`%Y-%m-%d`), as handed to the custom-format
/// machinery when lenient parsing falls back to it.
pub open spec fn default_date_fmt() -> Seq<char> {
    seq!['%', 'Y', '-', '%', 'm', '-', '%', 'd']
}

/// The default time pattern (`%H:%M:%S`).
pub open spec fn default_time_fmt() -> Seq<char> {
    seq!['%', 'H', ':', '%', 'M', ':', '%', 'S']
}

/// The default timestamp pattern (`%Y-%m-%dT%H:%M:%S`).
pub open spec fn default_datetime_fmt() -> Seq<char> {
    seq!['%', 'Y', '-', '%', 'm', '-', '%', 'd', 'T', '%', 'H', ':', '%', 'M', ':', '%', 'S']
}

/// The default UTC timestamp pattern (`%Y-%m-%dT%H:%M:%S%:z`).
pub open spec fn default_utc_fmt() -> Seq<char> {
    default_datetime_fmt() + seq!['%', ':', 'z']
}

/// The six-character UTC offset suffix of the default UTC timestamp
/// rendering.
pub open spec fn spec_utc_suffix() -> Seq<char> {
    seq!['+', '0', '0', ':', '0', '0']
}

/// Strict-form date parse: exactly `YYYY-MM-DD`, zero padded, the shape
/// [`CellTextCodec::spec_format`] renders.
pub open spec fn spec_parse_date_strict(text: Seq<char>) -> Option<CalendarDate> {
    if text.len() == 10 && text[4] == '-' && text[7] == '-' {
        let y = spec_parse_four(text, 0);
        let m = spec_parse_two(text, 5);
        let d = spec_parse_two(text, 8);
        if 0 <= y && 1 <= m <= 12 && 1 <= d && d <= spec_days_in_month(y, m) {
            Some(CalendarDate { year: y as u16, month: m as u8, day: d as u8 })
        } else {
            None
        }
    } else {
        None
    }
}

/// Strict-form time parse: exactly `HH:MM:SS`, zero padded.
pub open spec fn spec_parse_time_strict(text: Seq<char>) -> Option<ClockTime> {
    if text.len() == 8 && text[2] == ':' && text[5] == ':' {
        let h = spec_parse_two(text, 0);
        let m = spec_parse_two(text, 3);
        let s = spec_parse_two(text, 6);
        if 0 <= h < 24 && 0 <= m < 60 && 0 <= s < 60 {
            Some(ClockTime { hour: h as u8, minute: m as u8, second: s as u8 })
        } else {
            None
        }
    } else {
        None
    }
}

/// Strict-form timestamp parse: exactly `YYYY-MM-DDTHH:MM:SS`.
pub open spec fn spec_parse_timestamp_strict(text: Seq<char>) -> Option<Timestamp> {
    if text.len() == 19 && text[10] == 'T' {
        match (
            spec_parse_date_strict(text.subrange(0, 10)),
            spec_parse_time_strict(text.subrange(11, 19)),
        ) {
            (Some(date), Some(time)) => Some(Timestamp { date, time }),
            _ => None,
        }
    } else {
        None
    }
}

/// Strict-form UTC timestamp parse: exactly `YYYY-MM-DDTHH:MM:SS+00:00`.
pub open spec fn spec_parse_utc_strict(text: Seq<char>) -> Option<UtcTimestamp> {
    if text.len() == 25 && text.subrange(19, 25) == spec_utc_suffix() {
        match spec_parse_timestamp_strict(text.subrange(0, 19)) {
            Some(datetime) => Some(UtcTimestamp { datetime }),
            None => None,
        }
    } else {
        None
    }
}

/// Parse a date in the strict default form.
fn parse_date_strict(text: &str) -> (r: Option<CalendarDate>)
    ensures
        r == spec_parse_date_strict(text@),
        r matches Some(v) ==> v.wf(),
{
    if text.unicode_len() != 10 {
        return None;
    }
    if text.get_char(4) != '-' || text.get_char(7) != '-' {
        return None;
    }
    let y = read_four_digits(text, 0);
    let m = read_two_digits(text, 5);
    let d = read_two_digits(text, 8);
    match (y, m, d) {
        (Some(y), Some(m), Some(d)) => {
            if 1 <= m && m <= 12 && 1 <= d && d <= days_in_month(y, m as u8) {
                Some(CalendarDate { year: y, month: m as u8, day: d as u8 })
            } else {
                None
            }
        },
        _ => None,
    }
}

/// Parse a time in the strict default form.
fn parse_time_strict(text: &str) -> (r: Option<ClockTime>)
    ensures
        r == spec_parse_time_strict(text@),
        r matches Some(v) ==> v.wf(),
{
    if text.unicode_len() != 8 {
        return None;
    }
    if text.get_char(2) != ':' || text.get_char(5) != ':' {
        return None;
    }
    let h = read_two_digits(text, 0);
    let m = read_two_digits(text, 3);
    let s = read_two_digits(text, 6);
    match (h, m, s) {
        (Some(h), Some(m), Some(s)) => {
            if h < 24 && m < 60 && s < 60 {
                Some(ClockTime { hour: h, minute: m, second: s })
            } else {
                None
            }
        },
        _ => None,
    }
}

/// Parse a timestamp in the strict default form.
fn parse_timestamp_strict(text: &str) -> (r: Option<Timestamp>)
    ensures
        r == spec_parse_timestamp_strict(text@),
        r matches Some(v) ==> v.wf(),
{
    if text.unicode_len() != 19 {
        return None;
    }
    if text.get_char(10) != 'T' {
        return None;
    }
    let date_part = text.substring_char(0, 10);
    let time_part = text.substring_char(11, 19);
    match (parse_date_strict(date_part), parse_time_strict(time_part)) {
        (Some(date), Some(time)) => Some(Timestamp { date, time }),
        _ => None,
    }
}

/// Parse a UTC timestamp in the strict default form.
fn parse_utc_strict(text: &str) -> (r: Option<UtcTimestamp>)
    ensures
        r == spec_parse_utc_strict(text@),
        r matches Some(v) ==> v.wf(),
{
    if text.unicode_len() != 25 {
        return None;
    }
    let suffix_ok = text.get_char(19) == '+' && text.get_char(20) == '0' && text.get_char(21)
        == '0' && text.get_char(22) == ':' && text.get_char(23) == '0' && text.get_char(24) == '0';
    if !suffix_ok {
        proof {
            assert(text@.subrange(19, 25) != spec_utc_suffix());
        }
        return None;
    }
    proof {
        assert(text@.subrange(19, 25) =~= spec_utc_suffix());
    }
    let datetime_part = text.substring_char(0, 19);
    match parse_timestamp_strict(datetime_part) {
        Some(datetime) => Some(UtcTimestamp { datetime }),
        None => None,
    }
}

/// Parsing the strict rendering of a well-formed date restores it exactly.
proof fn lemma_date_strict_round_trip(v: CalendarDate)
    requires
        v.wf(),
    ensures
        spec_parse_date_strict(v.spec_format()) == Some(v),
{
    let f = v.spec_format();
    lemma_four_digits_round_trip(v.year as int);
    lemma_two_digits_round_trip(v.month as int);
    lemma_two_digits_round_trip(v.day as int);
    assert(f.len() == 10);
    assert(f[4] == '-' && f[7] == '-');
    assert(spec_parse_four(f, 0) == v.year as int);
    assert(spec_parse_two(f, 5) == v.month as int);
    assert(spec_parse_two(f, 8) == v.day as int);
}

/// Parsing the strict rendering of a well-formed time restores it exactly.
proof fn lemma_time_strict_round_trip(v: ClockTime)
    requires
        v.wf(),
    ensures
        spec_parse_time_strict(v.spec_format()) == Some(v),
{
    let f = v.spec_format();
    lemma_two_digits_round_trip(v.hour as int);
    lemma_two_digits_round_trip(v.minute as int);
    lemma_two_digits_round_trip(v.second as int);
    assert(f.len() == 8);
    assert(f[2] == ':' && f[5] == ':');
    assert(spec_parse_two(f, 0) == v.hour as int);
    assert(spec_parse_two(f, 3) == v.minute as int);
    assert(spec_parse_two(f, 6) == v.second as int);
}

/// Parsing the strict rendering of a well-formed timestamp restores it
/// exactly.
proof fn lemma_timestamp_strict_round_trip(v: Timestamp)
    requires
        v.wf(),
    ensures
        spec_parse_timestamp_strict(v.spec_format()) == Some(v),
{
    let f = v.spec_format();
    lemma_date_strict_round_trip(v.date);
    lemma_time_strict_round_trip(v.time);
    assert(f.len() == 19);
    assert(f[10] == 'T');
    assert(f.subrange(0, 10) =~= v.date.spec_format());
    assert(f.subrange(11, 19) =~= v.time.spec_format());
}

/// Parsing the strict rendering of a well-formed UTC timestamp restores it
/// exactly.
proof fn lemma_utc_strict_round_trip(v: UtcTimestamp)
    requires
        v.wf(),
    ensures
        spec_parse_utc_strict(v.spec_format()) == Some(v),
{
    let f = v.spec_format();
    lemma_timestamp_strict_round_trip(v.datetime);
    assert(f.len() == 25);
    assert(f.subrange(19, 25) =~= spec_utc_suffix());
    assert(f.subrange(0, 19) =~= v.datetime.spec_format());
}

impl CellTextCodec for CalendarDate {
    open spec fn wf(&self) -> bool {
        &&& self.year <= 9999
        &&& 1 <= self.month <= 12
        &&& 1 <= self.day
        &&& self.day as int <= spec_days_in_month(self.year as int, self.month as int)
    }

    open spec fn spec_format(&self) -> Seq<char> {
        spec_four_digits(self.year as int) + seq!['-'] + spec_two_digits(self.month as int)
            + seq!['-'] + spec_two_digits(self.day as int)
    }

    open spec fn spec_parse(text: Seq<char>) -> Option<Self> {
        match spec_parse_date_strict(text) {
            Some(v) => Some(v),
            None => match crate::strftime::strptime_date(text, default_date_fmt()) {
                Some(ymd) => crate::strftime::spec_date_from_parts(ymd.0, ymd.1, ymd.2),
                None => None,
            },
        }
    }

    open spec fn spec_parse_with(text: Seq<char>, fmt: Seq<char>) -> Option<Self> {
        match crate::strftime::strptime_date(text, fmt) {
            Some(ymd) => crate::strftime::spec_date_from_parts(ymd.0, ymd.1, ymd.2),
            None => None,
        }
    }

    open spec fn spec_format_with(&self, fmt: Seq<char>) -> Option<Seq<char>> {
        crate::strftime::strftime_date(self.year as int, self.month as int, self.day as int, fmt)
    }

    fn is_well_formed(&self) -> (r: bool) {
        self.year <= 9999 && 1 <= self.month && self.month <= 12 && 1 <= self.day && self.day
            <= days_in_month(self.year, self.month)
    }

    fn format_text(&self) -> (t: String) {
        let mut out: Vec<char> = Vec::new();
        push_four_digits(&mut out, self.year);
        out.push('-');
        push_two_digits(&mut out, self.month);
        out.push('-');
        push_two_digits(&mut out, self.day);
        assert(out@ =~= self.spec_format());
        chars_to_string(&out)
    }

    fn parse_text(text: &str) -> (r: Option<Self>) {
        match parse_date_strict(text) {
            Some(v) => Some(v),
            None => {
                proof {
                    reveal_strlit("%Y-%m-%d");
                    assert("%Y-%m-%d"@ =~= default_date_fmt());
                }
                match crate::strftime::chrono_parse_date(text, "%Y-%m-%d") {
                    Some(p) => crate::strftime::date_from_parts(p.0, p.1, p.2),
                    None => None,
                }
            },
        }
    }

    fn format_text_with(&self, fmt: &str) -> (r: Option<String>) {
        crate::strftime::chrono_format_date(self, fmt)
    }

    fn parse_text_with(text: &str, fmt: &str) -> (r: Option<Self>) {
        match crate::strftime::chrono_parse_date(text, fmt) {
            Some(p) => crate::strftime::date_from_parts(p.0, p.1, p.2),
            None => None,
        }
    }

    proof fn lemma_round_trip(&self) {
        lemma_date_strict_round_trip(*self);
    }
}

impl CellTextCodec for ClockTime {
    open spec fn wf(&self) -> bool {
        self.hour < 24 && self.minute < 60 && self.second < 60
    }

    open spec fn spec_format(&self) -> Seq<char> {
        spec_two_digits(self.hour as int) + seq![':'] + spec_two_digits(self.minute as int)
            + seq![':'] + spec_two_digits(self.second as int)
    }

    open spec fn spec_parse(text: Seq<char>) -> Option<Self> {
        match spec_parse_time_strict(text) {
            Some(v) => Some(v),
            None => match crate::strftime::strptime_time(text, default_time_fmt()) {
                Some(hms) => crate::strftime::spec_time_from_parts(hms.0, hms.1, hms.2),
                None => None,
            },
        }
    }

    open spec fn spec_parse_with(text: Seq<char>, fmt: Seq<char>) -> Option<Self> {
        match crate::strftime::strptime_time(text, fmt) {
            Some(hms) => crate::strftime::spec_time_from_parts(hms.0, hms.1, hms.2),
            None => None,
        }
    }

    open spec fn spec_format_with(&self, fmt: Seq<char>) -> Option<Seq<char>> {
        crate::strftime::strftime_time(
            self.hour as int,
            self.minute as int,
            self.second as int,
            fmt,
        )
    }

    fn is_well_formed(&self) -> (r: bool) {
        self.hour < 24 && self.minute < 60 && self.second < 60
    }

    fn format_text(&self) -> (t: String) {
        let mut out: Vec<char> = Vec::new();
        push_two_digits(&mut out, self.hour);
        out.push(':');
        push_two_digits(&mut out, self.minute);
        out.push(':');
        push_two_digits(&mut out, self.second);
        assert(out@ =~= self.spec_format());
        chars_to_string(&out)
    }

    fn parse_text(text: &str) -> (r: Option<Self>) {
        match parse_time_strict(text) {
            Some(v) => Some(v),
            None => {
                proof {
                    reveal_strlit("%H:%M:%S");
                    assert("%H:%M:%S"@ =~= default_time_fmt());
                }
                match crate::strftime::chrono_parse_time(text, "%H:%M:%S") {
                    Some(p) => crate::strftime::time_from_parts(p.0, p.1, p.2),
                    None => None,
                }
            },
        }
    }

    fn format_text_with(&self, fmt: &str) -> (r: Option<String>) {
        crate::strftime::chrono_format_time(self, fmt)
    }

    fn parse_text_with(text: &str, fmt: &str) -> (r: Option<Self>) {
        match crate::strftime::chrono_parse_time(text, fmt) {
            Some(p) => crate::strftime::time_from_parts(p.0, p.1, p.2),
            None => None,
        }
    }

    proof fn lemma_round_trip(&self) {
        lemma_time_strict_round_trip(*self);
    }
}

impl CellTextCodec for Timestamp {
    open spec fn wf(&self) -> bool {
        self.date.wf() && self.time.wf()
    }

    open spec fn spec_format(&self) -> Seq<char> {
        self.date.spec_format() + seq!['T'] + self.time.spec_format()
    }

    open spec fn spec_parse(text: Seq<char>) -> Option<Self> {
        match spec_parse_timestamp_strict(text) {
            Some(v) => Some(v),
            None => match crate::strftime::strptime_datetime(text, default_datetime_fmt()) {
                Some(p) => crate::strftime::spec_timestamp_from_parts(p),
                None => None,
            },
        }
    }

    open spec fn spec_parse_with(text: Seq<char>, fmt: Seq<char>) -> Option<Self> {
        match crate::strftime::strptime_datetime(text, fmt) {
            Some(p) => crate::strftime::spec_timestamp_from_parts(p),
            None => None,
        }
    }

    open spec fn spec_format_with(&self, fmt: Seq<char>) -> Option<Seq<char>> {
        crate::strftime::strftime_datetime(
            (
                (self.date.year as int, self.date.month as int, self.date.day as int),
                (self.time.hour as int, self.time.minute as int, self.time.second as int),
            ),
            fmt,
        )
    }

    fn is_well_formed(&self) -> (r: bool) {
        self.date.is_well_formed() && self.time.is_well_formed()
    }

    fn format_text(&self) -> (t: String) {
        let mut out = self.date.format_text();
        out.append("T");
        let time_text = self.time.format_text();
        out.append(time_text.as_str());
        proof {
            reveal_strlit("T");
            assert(out@ =~= self.spec_format());
        }
        out
    }

    fn parse_text(text: &str) -> (r: Option<Self>) {
        match parse_timestamp_strict(text) {
            Some(v) => Some(v),
            None => {
                proof {
                    reveal_strlit("%Y-%m-%dT%H:%M:%S");
                    assert("%Y-%m-%dT%H:%M:%S"@ =~= default_datetime_fmt());
                }
                match crate::strftime::chrono_parse_datetime(text, "%Y-%m-%dT%H:%M:%S") {
                    Some(p) => crate::strftime::timestamp_from_parts(p.0, p.1, p.2, p.3, p.4, p.5),
                    None => None,
                }
            },
        }
    }

    fn format_text_with(&self, fmt: &str) -> (r: Option<String>) {
        crate::strftime::chrono_format_datetime(self, fmt)
    }

    fn parse_text_with(text: &str, fmt: &str) -> (r: Option<Self>) {
        match crate::strftime::chrono_parse_datetime(text, fmt) {
            Some(p) => crate::strftime::timestamp_from_parts(p.0, p.1, p.2, p.3, p.4, p.5),
            None => None,
        }
    }

    proof fn lemma_round_trip(&self) {
        lemma_timestamp_strict_round_trip(*self);
    }
}

impl CellTextCodec for UtcTimestamp {
    open spec fn wf(&self) -> bool {
        self.datetime.wf()
    }

    open spec fn spec_format(&self) -> Seq<char> {
        self.datetime.spec_format() + spec_utc_suffix()
    }

    open spec fn spec_parse(text: Seq<char>) -> Option<Self> {
        match spec_parse_utc_strict(text) {
            Some(v) => Some(v),
            None => match crate::strftime::strptime_utc(text, default_utc_fmt()) {
                Some(p) => match crate::strftime::spec_timestamp_from_parts(p) {
                    Some(datetime) => Some(UtcTimestamp { datetime }),
                    None => None,
                },
                None => None,
            },
        }
    }

    open spec fn spec_parse_with(text: Seq<char>, fmt: Seq<char>) -> Option<Self> {
        match crate::strftime::strptime_utc(text, fmt) {
            Some(p) => match crate::strftime::spec_timestamp_from_parts(p) {
                Some(datetime) => Some(UtcTimestamp { datetime }),
                None => None,
            },
            None => None,
        }
    }

    open spec fn spec_format_with(&self, fmt: Seq<char>) -> Option<Seq<char>> {
        crate::strftime::strftime_utc(
            (
                (
                    self.datetime.date.year as int,
                    self.datetime.date.month as int,
                    self.datetime.date.day as int,
                ),
                (
                    self.datetime.time.hour as int,
                    self.datetime.time.minute as int,
                    self.datetime.time.second as int,
                ),
            ),
            fmt,
        )
    }

    fn is_well_formed(&self) -> (r: bool) {
        self.datetime.is_well_formed()
    }

    fn format_text(&self) -> (t: String) {
        let mut out = self.datetime.format_text();
        out.append("+00:00");
        proof {
            reveal_strlit("+00:00");
            assert("+00:00"@ =~= spec_utc_suffix());
            assert(out@ =~= self.spec_format());
        }
        out
    }

    fn parse_text(text: &str) -> (r: Option<Self>) {
        match parse_utc_strict(text) {
            Some(v) => Some(v),
            None => {
                proof {
                    reveal_strlit("%Y-%m-%dT%H:%M:%S%:z");
                    assert("%Y-%m-%dT%H:%M:%S%:z"@ =~= default_utc_fmt());
                }
                match crate::strftime::chrono_parse_utc(text, "%Y-%m-%dT%H:%M:%S%:z") {
                    Some(p) => match crate::strftime::timestamp_from_parts(
                        p.0,
                        p.1,
                        p.2,
                        p.3,
                        p.4,
                        p.5,
                    ) {
                        Some(datetime) => Some(UtcTimestamp { datetime }),
                        None => None,
                    },
                    None => None,
                }
            },
        }
    }

    fn format_text_with(&self, fmt: &str) -> (r: Option<String>) {
        crate::strftime::chrono_format_utc(self, fmt)
    }

    fn parse_text_with(text: &str, fmt: &str) -> (r: Option<Self>) {
        match crate::strftime::chrono_parse_utc(text, fmt) {
            Some(p) => {
                match crate::strftime::timestamp_from_parts(p.0, p.1, p.2, p.3, p.4, p.5) {
                    Some(datetime) => Some(UtcTimestamp { datetime }),
                    None => None,
                }
            },
            None => None,
        }
    }

    proof fn lemma_round_trip(&self) {
        lemma_utc_strict_round_trip(*self);
    }
}

} // verus!
