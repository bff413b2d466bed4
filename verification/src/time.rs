use vstd::prelude::*;
use vstd::string::StrSliceExecFns;
use vstd::string::StringExecFns;
use chrono::Datelike;
use chrono::Timelike;

verus! {

/// The clock components of a moment in UTC, as plain values.
#[derive(Clone, Copy, Debug)]
pub struct TimeParts {
    pub year: i32,
    pub month: u32,
    pub day: u32,
    pub hour: u32,
    pub minute: u32,
    pub second: u32,
}

/// The component ranges the timestamp format can carry: a four-digit year
/// and calendar-clock ranges for the rest.
pub open spec fn parts_in_range(p: TimeParts) -> bool {
    0 <= p.year <= 9999 && 1 <= p.month <= 12 && 1 <= p.day <= 31 && p.hour <= 23 && p.minute
        <= 59 && p.second <= 59
}

pub open spec fn spec_digit(d: int) -> char {
    if d == 0 {
        '0'
    } else if d == 1 {
        '1'
    } else if d == 2 {
        '2'
    } else if d == 3 {
        '3'
    } else if d == 4 {
        '4'
    } else if d == 5 {
        '5'
    } else if d == 6 {
        '6'
    } else if d == 7 {
        '7'
    } else if d == 8 {
        '8'
    } else {
        '9'
    }
}

pub open spec fn spec_two_digits(n: int) -> Seq<char> {
    seq![spec_digit(n / 10), spec_digit(n % 10)]
}

pub open spec fn spec_four_digits(n: int) -> Seq<char> {
    seq![spec_digit(n / 1000), spec_digit((n / 100) % 10), spec_digit((n / 10) % 10), spec_digit(n % 10)]
}

/// In-range clock components formatted as `YYYY-MM-DD HH:MM:SS`.
pub open spec fn spec_timestamp(p: TimeParts) -> Seq<char> {
    spec_four_digits(p.year as int) + seq!['-'] + spec_two_digits(p.month as int) + seq!['-']
        + spec_two_digits(p.day as int) + seq![' '] + spec_two_digits(p.hour as int) + seq![':']
        + spec_two_digits(p.minute as int) + seq![':'] + spec_two_digits(p.second as int)
}

/// The timestamp written for components the format cannot carry: the epoch
/// instant.
pub open spec fn epoch_timestamp() -> Seq<char> {
    "1970-01-01 00:00:00"@
}

/// What formatting yields on every input: the formatted components when they
/// are in range, the epoch instant otherwise.
pub open spec fn spec_format_timestamp(p: TimeParts) -> Seq<char> {
    if parts_in_range(p) {
        spec_timestamp(p)
    } else {
        epoch_timestamp()
    }
}

fn digit_str(d: u32) -> (r: &'static str)
    requires
        d < 10,
    ensures
        r@ =~= seq![spec_digit(d as int)],
{
    proof {
        reveal_strlit("0");
        reveal_strlit("1");
        reveal_strlit("2");
        reveal_strlit("3");
        reveal_strlit("4");
        reveal_strlit("5");
        reveal_strlit("6");
        reveal_strlit("7");
        reveal_strlit("8");
        reveal_strlit("9");
    }
    match d {
        0 => "0",
        1 => "1",
        2 => "2",
        3 => "3",
        4 => "4",
        5 => "5",
        6 => "6",
        7 => "7",
        8 => "8",
        _ => "9",
    }
}

fn push_two_digits(s: &mut String, n: u32)
    requires
        n <= 99,
    ensures
        final(s)@ == old(s)@ + spec_two_digits(n as int),
{
    s.append(digit_str(n / 10));
    s.append(digit_str(n % 10));
    proof {
        assert(s@ =~= old(s)@ + spec_two_digits(n as int));
    }
}

fn push_four_digits(s: &mut String, n: u32)
    requires
        n <= 9999,
    ensures
        final(s)@ == old(s)@ + spec_four_digits(n as int),
{
    s.append(digit_str(n / 1000));
    s.append(digit_str((n / 100) % 10));
    s.append(digit_str((n / 10) % 10));
    s.append(digit_str(n % 10));
    proof {
        assert(s@ =~= old(s)@ + spec_four_digits(n as int));
    }
}

/// Formats clock components as `YYYY-MM-DD HH:MM:SS`; components the format
/// cannot carry fall back to the epoch instant.
pub fn format_timestamp(p: TimeParts) -> (r: String)
    ensures
        r@ == spec_format_timestamp(p),
{
    if !(0 <= p.year && p.year <= 9999 && 1 <= p.month && p.month <= 12 && 1 <= p.day && p.day
        <= 31 && p.hour <= 23 && p.minute <= 59 && p.second <= 59) {
        return "1970-01-01 00:00:00".to_owned();
    }
    let mut s = String::new();
    push_four_digits(&mut s, p.year as u32);
    s.append("-");
    push_two_digits(&mut s, p.month);
    s.append("-");
    push_two_digits(&mut s, p.day);
    s.append(" ");
    push_two_digits(&mut s, p.hour);
    s.append(":");
    push_two_digits(&mut s, p.minute);
    s.append(":");
    push_two_digits(&mut s, p.second);
    proof {
        reveal_strlit("-");
        reveal_strlit(" ");
        reveal_strlit(":");
        assert(s@ =~= spec_timestamp(p));
    }
    s
}

/// A digit character, `0` through `9`.
pub open spec fn is_digit(c: char) -> bool {
    c == '0' || c == '1' || c == '2' || c == '3' || c == '4' || c == '5' || c == '6' || c == '7'
        || c == '8' || c == '9'
}

/// The parseable timestamp shape the library promises of every timestamp it
/// derives: exactly `YYYY-MM-DD HH:MM:SS`, with a digit at every digit
/// position.
pub open spec fn valid_timestamp(s: Seq<char>) -> bool {
    s.len() == 19 && is_digit(s[0]) && is_digit(s[1]) && is_digit(s[2]) && is_digit(s[3]) && s[4]
        == '-' && is_digit(s[5]) && is_digit(s[6]) && s[7] == '-' && is_digit(s[8]) && is_digit(
        s[9],
    ) && s[10] == ' ' && is_digit(s[11]) && is_digit(s[12]) && s[13] == ':' && is_digit(s[14])
        && is_digit(s[15]) && s[16] == ':' && is_digit(s[17]) && is_digit(s[18])
}

/// Whatever the clock components, the formatted timestamp has the parseable
/// shape.
pub proof fn lemma_format_timestamp_valid(p: TimeParts)
    ensures
        valid_timestamp(spec_format_timestamp(p)),
{
    reveal_strlit("1970-01-01 00:00:00");
}

/// Whether a string has the timestamp shape `YYYY-MM-DD HH:MM:SS`.
pub fn is_timestamp(s: &str) -> (r: bool)
    ensures
        r == valid_timestamp(s@),
{
    let n = s.unicode_len();
    if n != 19 {
        return false;
    }
    let mut i: usize = 0;
    while i < 19
        invariant
            i <= 19,
            s@.len() == 19,
            forall|j: int| 0 <= j < i ==> position_ok(s@, j),
        ensures
            i <= 19,
            s@.len() == 19,
            forall|j: int| 0 <= j < i ==> position_ok(s@, j),
            i < 19 ==> !position_ok(s@, i as int),
        decreases 19 - i,
    {
        let c = s.get_char(i);
        let ok = if i == 4 || i == 7 {
            c == '-'
        } else if i == 10 {
            c == ' '
        } else if i == 13 || i == 16 {
            c == ':'
        } else {
            c == '0' || c == '1' || c == '2' || c == '3' || c == '4' || c == '5' || c == '6' || c
                == '7' || c == '8' || c == '9'
        };
        if !ok {
            break;
        }
        i = i + 1;
    }
    proof {
        if i == 19 {
            assert(position_ok(s@, 0) && position_ok(s@, 1) && position_ok(s@, 2) && position_ok(
                s@,
                3,
            ) && position_ok(s@, 4) && position_ok(s@, 5) && position_ok(s@, 6) && position_ok(
                s@,
                7,
            ) && position_ok(s@, 8) && position_ok(s@, 9) && position_ok(s@, 10) && position_ok(
                s@,
                11,
            ) && position_ok(s@, 12) && position_ok(s@, 13) && position_ok(s@, 14) && position_ok(
                s@,
                15,
            ) && position_ok(s@, 16) && position_ok(s@, 17) && position_ok(s@, 18));
            assert(valid_timestamp(s@));
        } else {
            if valid_timestamp(s@) {
                lemma_valid_positions(s@, i as int);
            }
        }
    }
    i == 19
}

/// A string of the timestamp shape meets the per-position requirement at
/// every position.
proof fn lemma_valid_positions(s: Seq<char>, j: int)
    requires
        valid_timestamp(s),
        0 <= j < 19,
    ensures
        position_ok(s, j),
{
}

/// What must hold of a timestamp character by its position: a separator at
/// the separator positions, a digit everywhere else.
pub open spec fn position_ok(s: Seq<char>, j: int) -> bool {
    if j == 4 || j == 7 {
        s[j] == '-'
    } else if j == 10 {
        s[j] == ' '
    } else if j == 13 || j == 16 {
        s[j] == ':'
    } else {
        is_digit(s[j])
    }
}

/// The numeric value of a digit character; zero on anything else.
pub open spec fn digit_val(c: char) -> int {
    if c == '1' {
        1
    } else if c == '2' {
        2
    } else if c == '3' {
        3
    } else if c == '4' {
        4
    } else if c == '5' {
        5
    } else if c == '6' {
        6
    } else if c == '7' {
        7
    } else if c == '8' {
        8
    } else if c == '9' {
        9
    } else {
        0
    }
}

/// What parsing yields: the clock components read off a string of the
/// timestamp shape, and nothing on any other string.
pub open spec fn spec_parse_timestamp(s: Seq<char>) -> Option<TimeParts> {
    if valid_timestamp(s) {
        Option::Some(
            TimeParts {
                year: (digit_val(s[0]) * 1000 + digit_val(s[1]) * 100 + digit_val(s[2]) * 10
                    + digit_val(s[3])) as i32,
                month: (digit_val(s[5]) * 10 + digit_val(s[6])) as u32,
                day: (digit_val(s[8]) * 10 + digit_val(s[9])) as u32,
                hour: (digit_val(s[11]) * 10 + digit_val(s[12])) as u32,
                minute: (digit_val(s[14]) * 10 + digit_val(s[15])) as u32,
                second: (digit_val(s[17]) * 10 + digit_val(s[18])) as u32,
            },
        )
    } else {
        Option::None
    }
}

fn digit_of(c: char) -> (d: u32)
    ensures
        d == digit_val(c),
        d <= 9,
{
    match c {
        '1' => 1,
        '2' => 2,
        '3' => 3,
        '4' => 4,
        '5' => 5,
        '6' => 6,
        '7' => 7,
        '8' => 8,
        '9' => 9,
        _ => 0,
    }
}

/// Parses a string of the timestamp shape back into its clock components;
/// any string of another shape yields nothing.
pub fn parse_timestamp(s: &str) -> (r: Option<TimeParts>)
    ensures
        r == spec_parse_timestamp(s@),
{
    if !is_timestamp(s) {
        return Option::None;
    }
    let year = digit_of(s.get_char(0)) * 1000 + digit_of(s.get_char(1)) * 100 + digit_of(
        s.get_char(2),
    ) * 10 + digit_of(s.get_char(3));
    let month = digit_of(s.get_char(5)) * 10 + digit_of(s.get_char(6));
    let day = digit_of(s.get_char(8)) * 10 + digit_of(s.get_char(9));
    let hour = digit_of(s.get_char(11)) * 10 + digit_of(s.get_char(12));
    let minute = digit_of(s.get_char(14)) * 10 + digit_of(s.get_char(15));
    let second = digit_of(s.get_char(17)) * 10 + digit_of(s.get_char(18));
    Option::Some(
        TimeParts { year: year as i32, month, day, hour, minute, second },
    )
}

/// Round trip: formatting in-range clock components and parsing the result
/// gives the components back — the derived timestamp is parseable in the
/// literal sense, not merely well-shaped.
pub proof fn lemma_timestamp_round_trip(p: TimeParts)
    requires
        parts_in_range(p),
    ensures
        spec_parse_timestamp(spec_format_timestamp(p)) == Option::Some(p),
{
    lemma_format_timestamp_valid(p);
    let s = spec_timestamp(p);
    let y = p.year as int;
    assert(s[0] == spec_digit(y / 1000) && s[1] == spec_digit((y / 100) % 10) && s[2]
        == spec_digit((y / 10) % 10) && s[3] == spec_digit(y % 10));
    lemma_four_digit_reassembly(y);
    lemma_two_digit_reassembly(p.month as int);
    lemma_two_digit_reassembly(p.day as int);
    lemma_two_digit_reassembly(p.hour as int);
    lemma_two_digit_reassembly(p.minute as int);
    lemma_two_digit_reassembly(p.second as int);
}

/// A number up to four digits is recovered from its decimal digits.
proof fn lemma_four_digit_reassembly(n: int)
    requires
        0 <= n <= 9999,
    ensures
        digit_val(spec_digit(n / 1000)) * 1000 + digit_val(spec_digit((n / 100) % 10)) * 100
            + digit_val(spec_digit((n / 10) % 10)) * 10 + digit_val(spec_digit(n % 10)) == n,
{
    assert(digit_val(spec_digit(n / 1000)) == n / 1000);
    assert(digit_val(spec_digit((n / 100) % 10)) == (n / 100) % 10);
    assert(digit_val(spec_digit((n / 10) % 10)) == (n / 10) % 10);
    assert(digit_val(spec_digit(n % 10)) == n % 10);
    assert((n / 1000) * 1000 + ((n / 100) % 10) * 100 + ((n / 10) % 10) * 10 + n % 10 == n) by (nonlinear_arith)
        requires
            0 <= n <= 9999,
    ;
}

/// A number up to two digits is recovered from its decimal digits.
proof fn lemma_two_digit_reassembly(n: int)
    requires
        0 <= n <= 99,
    ensures
        digit_val(spec_digit(n / 10)) * 10 + digit_val(spec_digit(n % 10)) == n,
{
    assert(digit_val(spec_digit(n / 10)) == n / 10);
    assert(digit_val(spec_digit(n % 10)) == n % 10);
    assert((n / 10) * 10 + n % 10 == n) by (nonlinear_arith)
        requires
            0 <= n <= 99,
    ;
}

/// Relies on chrono: `Utc::now` for the current moment, read out through the
/// `Datelike` and `Timelike` accessors `year`, `month`, `day`, `hour`,
/// `minute` and `second`. chrono documents the component ranges stated here;
/// the year carries no documented bound, so none is stated.
#[verifier::external_body]
fn now_utc_parts() -> (p: TimeParts)
    ensures
        1 <= p.month <= 12,
        1 <= p.day <= 31,
        p.hour <= 23,
        p.minute <= 59,
        p.second <= 59,
{
    let now = chrono::Utc::now();
    TimeParts {
        year: now.year(),
        month: now.month(),
        day: now.day(),
        hour: now.hour(),
        minute: now.minute(),
        second: now.second(),
    }
}

/// The current UTC time formatted as `YYYY-MM-DD HH:MM:SS`. Whatever moment
/// the clock reports, the result has the parseable timestamp shape; a year
/// outside the four-digit range falls back to the epoch instant.
pub fn current_timestamp() -> (r: String)
    ensures
        valid_timestamp(r@),
{
    let p = now_utc_parts();
    let r = format_timestamp(p);
    proof {
        lemma_format_timestamp_valid(p);
    }
    r
}

} // verus!
