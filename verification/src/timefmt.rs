use vstd::prelude::*;
use vstd::string::StringExecFns;

verus! {

/// A civil local time at seconds precision, together with the local UTC
/// offset in minutes.  This is the timestamp every recorded URL carries.
#[derive(Clone, Copy, PartialEq, Eq, Structural, Debug)]
pub struct Timestamp {
    pub year: u16,
    pub month: u8,
    pub day: u8,
    pub hour: u8,
    pub minute: u8,
    pub second: u8,
    pub offset_minutes: i16,
}

/// Whether a year is a leap year in the proleptic Gregorian calendar.
pub open spec fn is_leap_year(y: int) -> bool {
    y % 4 == 0 && (y % 100 != 0 || y % 400 == 0)
}

/// Number of days in a month, leap years included.
pub open spec fn days_in_month(y: int, m: int) -> int {
    if m == 1 || m == 3 || m == 5 || m == 7 || m == 8 || m == 10 || m == 12 {
        31
    } else if m == 4 || m == 6 || m == 9 || m == 11 {
        30
    } else if is_leap_year(y) {
        29
    } else {
        28
    }
}

impl Timestamp {
    /// A timestamp is valid when its fields form a real calendar date and
    /// time of day, the year has four decimal digits, and the offset is a
    /// whole number of minutes strictly below one day.
    pub open spec fn valid(self) -> bool {
        &&& self.year <= 9999
        &&& 1 <= self.month <= 12
        &&& 1 <= self.day <= days_in_month(self.year as int, self.month as int)
        &&& self.hour <= 23
        &&& self.minute <= 59
        &&& self.second <= 59
        &&& -1439 <= self.offset_minutes <= 1439
    }
}

/// Days in a month, executable form.
pub fn days_in_month_of(year: u16, month: u8) -> (d: u8)
    requires
        1 <= month <= 12,
    ensures
        d as int == days_in_month(year as int, month as int),
{
    if month == 1 || month == 3 || month == 5 || month == 7 || month == 8 || month == 10
        || month == 12 {
        31
    } else if month == 4 || month == 6 || month == 9 || month == 11 {
        30
    } else if year % 4 == 0 && (year % 100 != 0 || year % 400 == 0) {
        29
    } else {
        28
    }
}

impl Timestamp {
    /// Builds a timestamp from its fields, accepting exactly the valid
    /// combinations and rejecting every other one.
    pub fn new(
        year: u16,
        month: u8,
        day: u8,
        hour: u8,
        minute: u8,
        second: u8,
        offset_minutes: i16,
    ) -> (r: Option<Timestamp>)
        ensures
            ({
                let t = Timestamp { year, month, day, hour, minute, second, offset_minutes };
                r == if t.valid() {
                    Some(t)
                } else {
                    None::<Timestamp>
                }
            }),
    {
        if year <= 9999 && 1 <= month && month <= 12 && hour <= 23 && minute <= 59 && second <= 59
            && -1439 <= offset_minutes && offset_minutes <= 1439 {
            if 1 <= day && day <= days_in_month_of(year, month) {
                Some(Timestamp { year, month, day, hour, minute, second, offset_minutes })
            } else {
                None
            }
        } else {
            None
        }
    }
}

/// The character for one decimal digit.
pub open spec fn digit_char(d: int) -> char {
    ((48 + d) as u8) as char
}

/// The value of one decimal digit character.
pub open spec fn digit_val(c: char) -> int {
    c as int - 48
}

/// Whether a character is a decimal digit.
pub open spec fn is_digit(c: char) -> bool {
    48 <= c as int <= 57
}

/// Two decimal digits, zero-padded.
pub open spec fn dec2(n: int) -> Seq<char> {
    seq![digit_char(n / 10), digit_char(n % 10)]
}

/// Four decimal digits, zero-padded.
pub open spec fn dec4(n: int) -> Seq<char> {
    seq![
        digit_char(n / 1000),
        digit_char((n / 100) % 10),
        digit_char((n / 10) % 10),
        digit_char(n % 10),
    ]
}

/// The RFC 3339 text of a UTC offset given in minutes: `Z` for zero, else a
/// sign and zero-padded hours and minutes.
pub open spec fn offset_text(om: int) -> Seq<char> {
    if om == 0 {
        seq!['Z']
    } else if om > 0 {
        seq!['+'] + dec2(om / 60) + seq![':'] + dec2(om % 60)
    } else {
        seq!['-'] + dec2((-om) / 60) + seq![':'] + dec2((-om) % 60)
    }
}

/// The RFC 3339 text of a timestamp at seconds precision.
pub open spec fn rfc3339_text(t: Timestamp) -> Seq<char> {
    dec4(t.year as int) + seq!['-'] + dec2(t.month as int) + seq!['-'] + dec2(t.day as int)
        + seq!['T'] + dec2(t.hour as int) + seq![':'] + dec2(t.minute as int) + seq![':'] + dec2(
        t.second as int,
    ) + offset_text(t.offset_minutes as int)
}

proof fn lemma_digit(v: int)
    requires
        0 <= v <= 9,
    ensures
        is_digit(digit_char(v)),
        digit_val(digit_char(v)) == v,
{
    assert(digit_char(v) as int == 48 + v);
}

pub(crate) fn digit_str(d: u8) -> (s: &'static str)
    requires
        d < 10,
    ensures
        s@ == seq![digit_char(d as int)],
{
    proof {
        lemma_digit(d as int);
    }
    if d == 0 {
        proof { reveal_strlit("0"); }
        assert("0"@ =~= seq![digit_char(0)]);
        "0"
    } else if d == 1 {
        proof { reveal_strlit("1"); }
        assert("1"@ =~= seq![digit_char(1)]);
        "1"
    } else if d == 2 {
        proof { reveal_strlit("2"); }
        assert("2"@ =~= seq![digit_char(2)]);
        "2"
    } else if d == 3 {
        proof { reveal_strlit("3"); }
        assert("3"@ =~= seq![digit_char(3)]);
        "3"
    } else if d == 4 {
        proof { reveal_strlit("4"); }
        assert("4"@ =~= seq![digit_char(4)]);
        "4"
    } else if d == 5 {
        proof { reveal_strlit("5"); }
        assert("5"@ =~= seq![digit_char(5)]);
        "5"
    } else if d == 6 {
        proof { reveal_strlit("6"); }
        assert("6"@ =~= seq![digit_char(6)]);
        "6"
    } else if d == 7 {
        proof { reveal_strlit("7"); }
        assert("7"@ =~= seq![digit_char(7)]);
        "7"
    } else if d == 8 {
        proof { reveal_strlit("8"); }
        assert("8"@ =~= seq![digit_char(8)]);
        "8"
    } else {
        proof { reveal_strlit("9"); }
        assert("9"@ =~= seq![digit_char(9)]);
        "9"
    }
}

fn push_dec2(s: &mut String, n: u8)
    requires
        n < 100,
    ensures
        final(s)@ == old(s)@ + dec2(n as int),
{
    s.append(digit_str(n / 10));
    s.append(digit_str(n % 10));
    proof {
        assert(s@ =~= old(s)@ + dec2(n as int));
    }
}

fn push_dec4(s: &mut String, n: u16)
    requires
        n <= 9999,
    ensures
        final(s)@ == old(s)@ + dec4(n as int),
{
    s.append(digit_str((n / 1000) as u8));
    s.append(digit_str(((n / 100) % 10) as u8));
    s.append(digit_str(((n / 10) % 10) as u8));
    s.append(digit_str((n % 10) as u8));
    proof {
        assert(s@ =~= old(s)@ + dec4(n as int));
    }
}

/// Serializes a timestamp as RFC 3339 text at seconds precision, `Z` for a
/// zero offset.
pub fn format_rfc3339(t: &Timestamp) -> (s: String)
    requires
        t.valid(),
    ensures
        s@ == rfc3339_text(*t),
{
    proof {
        reveal_strlit("-");
        reveal_strlit("T");
        reveal_strlit(":");
        reveal_strlit("Z");
        reveal_strlit("+");
    }
    let mut s = String::new();
    push_dec4(&mut s, t.year);
    s.append("-");
    push_dec2(&mut s, t.month);
    s.append("-");
    push_dec2(&mut s, t.day);
    s.append("T");
    push_dec2(&mut s, t.hour);
    s.append(":");
    push_dec2(&mut s, t.minute);
    s.append(":");
    push_dec2(&mut s, t.second);
    if t.offset_minutes == 0 {
        s.append("Z");
        proof {
            assert(s@ =~= rfc3339_text(*t));
        }
    } else if t.offset_minutes > 0 {
        s.append("+");
        push_dec2(&mut s, (t.offset_minutes / 60) as u8);
        s.append(":");
        push_dec2(&mut s, (t.offset_minutes % 60) as u8);
        proof {
            assert(s@ =~= rfc3339_text(*t));
        }
    } else {
        s.append("-");
        let m: i16 = -t.offset_minutes;
        push_dec2(&mut s, (m / 60) as u8);
        s.append(":");
        push_dec2(&mut s, (m % 60) as u8);
        proof {
            assert(s@ =~= rfc3339_text(*t));
        }
    }
    s
}

/// The number read from two decimal digit characters.
pub open spec fn read2(s: Seq<char>, i: int) -> int {
    digit_val(s[i]) * 10 + digit_val(s[i + 1])
}

/// The number read from four decimal digit characters.
pub open spec fn read4(s: Seq<char>, i: int) -> int {
    digit_val(s[i]) * 1000 + digit_val(s[i + 1]) * 100 + digit_val(s[i + 2]) * 10 + digit_val(
        s[i + 3],
    )
}

/// Whether the first nineteen characters have the shape
/// `YYYY-MM-DDTHH:MM:SS`.
pub open spec fn core_shape(s: Seq<char>) -> bool {
    &&& s.len() >= 19
    &&& is_digit(s[0]) && is_digit(s[1]) && is_digit(s[2]) && is_digit(s[3])
    &&& s[4] == '-'
    &&& is_digit(s[5]) && is_digit(s[6])
    &&& s[7] == '-'
    &&& is_digit(s[8]) && is_digit(s[9])
    &&& s[10] == 'T'
    &&& is_digit(s[11]) && is_digit(s[12])
    &&& s[13] == ':'
    &&& is_digit(s[14]) && is_digit(s[15])
    &&& s[16] == ':'
    &&& is_digit(s[17]) && is_digit(s[18])
}

/// Whether the tail is a well-formed offset: `Z`, or a sign with zero-padded
/// hours and minutes, the minutes below sixty.
pub open spec fn offset_shape(s: Seq<char>) -> bool {
    ||| (s.len() == 20 && s[19] == 'Z')
    ||| (s.len() == 25 && (s[19] == '+' || s[19] == '-') && is_digit(s[20]) && is_digit(s[21])
        && s[22] == ':' && is_digit(s[23]) && is_digit(s[24]) && read2(s, 23) <= 59)
}

/// The offset in minutes that a well-shaped tail denotes.
pub open spec fn parsed_offset(s: Seq<char>) -> int {
    if s.len() == 20 {
        0
    } else if s[19] == '+' {
        read2(s, 20) * 60 + read2(s, 23)
    } else {
        -(read2(s, 20) * 60 + read2(s, 23))
    }
}

/// The timestamp that well-shaped RFC 3339 text denotes.
pub open spec fn parsed_ts(s: Seq<char>) -> Timestamp {
    Timestamp {
        year: read4(s, 0) as u16,
        month: read2(s, 5) as u8,
        day: read2(s, 8) as u8,
        hour: read2(s, 11) as u8,
        minute: read2(s, 14) as u8,
        second: read2(s, 17) as u8,
        offset_minutes: parsed_offset(s) as i16,
    }
}

/// What parsing RFC 3339 text at seconds precision yields: the denoted
/// timestamp when the text is well shaped and denotes a valid one, and
/// nothing otherwise.
pub open spec fn parse_rfc3339_text(s: Seq<char>) -> Option<Timestamp> {
    if core_shape(s) && offset_shape(s) && parsed_ts(s).valid() {
        Some(parsed_ts(s))
    } else {
        None
    }
}

fn digit_val_of(c: char) -> (r: Option<u8>)
    ensures
        r is Some <==> is_digit(c),
        r is Some ==> r->Some_0 as int == digit_val(c) && r->Some_0 <= 9,
{
    let v = c as u32;
    if 48 <= v && v <= 57 {
        Some((v - 48) as u8)
    } else {
        None
    }
}

fn read2_at(s: &str, i: usize) -> (r: Option<u8>)
    requires
        i + 1 < s@.len(),
        s@.len() <= usize::MAX,
    ensures
        r is Some <==> (is_digit(s@[i as int]) && is_digit(s@[i as int + 1])),
        r is Some ==> r->Some_0 as int == read2(s@, i as int) && r->Some_0 <= 99,
{
    let a = match digit_val_of(s.get_char(i)) {
        Some(v) => v,
        None => { return None },
    };
    let b = match digit_val_of(s.get_char(i + 1)) {
        Some(v) => v,
        None => { return None },
    };
    Some(a * 10 + b)
}

fn read4_at(s: &str, i: usize) -> (r: Option<u16>)
    requires
        i + 3 < s@.len(),
        s@.len() <= usize::MAX,
    ensures
        r is Some <==> (is_digit(s@[i as int]) && is_digit(s@[i as int + 1]) && is_digit(
            s@[i as int + 2],
        ) && is_digit(s@[i as int + 3])),
        r is Some ==> r->Some_0 as int == read4(s@, i as int) && r->Some_0 <= 9999,
{
    let a = match digit_val_of(s.get_char(i)) {
        Some(v) => v,
        None => { return None },
    };
    let b = match digit_val_of(s.get_char(i + 1)) {
        Some(v) => v,
        None => { return None },
    };
    let c = match digit_val_of(s.get_char(i + 2)) {
        Some(v) => v,
        None => { return None },
    };
    let d = match digit_val_of(s.get_char(i + 3)) {
        Some(v) => v,
        None => { return None },
    };
    Some((a as u16) * 1000 + (b as u16) * 100 + (c as u16) * 10 + d as u16)
}

fn expect_at(s: &str, i: usize, c: char) -> (b: bool)
    requires
        i < s@.len(),
    ensures
        b == (s@[i as int] == c),
{
    s.get_char(i) == c
}

/// Parses RFC 3339 text at seconds precision; accepts `Z` as well as a
/// signed offset, and rejects everything that is not a valid timestamp.
pub fn parse_rfc3339(s: &str) -> (r: Option<Timestamp>)
    ensures
        r == parse_rfc3339_text(s@),
{
    let n = s.unicode_len();
    if n != 20 && n != 25 {
        return None;
    }
    let year = match read4_at(s, 0) {
        Some(v) => v,
        None => { return None },
    };
    if !expect_at(s, 4, '-') {
        return None;
    }
    let month = match read2_at(s, 5) {
        Some(v) => v,
        None => { return None },
    };
    if !expect_at(s, 7, '-') {
        return None;
    }
    let day = match read2_at(s, 8) {
        Some(v) => v,
        None => { return None },
    };
    if !expect_at(s, 10, 'T') {
        return None;
    }
    let hour = match read2_at(s, 11) {
        Some(v) => v,
        None => { return None },
    };
    if !expect_at(s, 13, ':') {
        return None;
    }
    let minute = match read2_at(s, 14) {
        Some(v) => v,
        None => { return None },
    };
    if !expect_at(s, 16, ':') {
        return None;
    }
    let second = match read2_at(s, 17) {
        Some(v) => v,
        None => { return None },
    };
    let off: i16;
    if n == 20 {
        if !expect_at(s, 19, 'Z') {
            return None;
        }
        off = 0;
    } else {
        let plus = expect_at(s, 19, '+');
        let minus = expect_at(s, 19, '-');
        if !plus && !minus {
            return None;
        }
        let oh = match read2_at(s, 20) {
            Some(v) => v,
            None => { return None },
        };
        if !expect_at(s, 22, ':') {
            return None;
        }
        let om = match read2_at(s, 23) {
            Some(v) => v,
            None => { return None },
        };
        if om > 59 {
            return None;
        }
        let total: i16 = (oh as i16) * 60 + (om as i16);
        off = if plus {
            total
        } else {
            -total
        };
    }
    let r = Timestamp::new(year, month, day, hour, minute, second, off);
    proof {
        assert(core_shape(s@));
        assert(offset_shape(s@));
        assert(Timestamp {
            year,
            month,
            day,
            hour,
            minute,
            second,
            offset_minutes: off,
        } == parsed_ts(s@));
    }
    r
}

proof fn lemma_dec2_recompose(n: int)
    requires
        0 <= n <= 99,
    ensures
        (n / 10) * 10 + n % 10 == n,
{
    vstd::arithmetic::div_mod::lemma_fundamental_div_mod(n, 10);
}

proof fn lemma_dec4_recompose(n: int)
    requires
        0 <= n <= 9999,
    ensures
        (n / 1000) * 1000 + ((n / 100) % 10) * 100 + ((n / 10) % 10) * 10 + n % 10 == n,
{
    vstd::arithmetic::div_mod::lemma_fundamental_div_mod(n, 10);
    vstd::arithmetic::div_mod::lemma_fundamental_div_mod(n / 10, 10);
    vstd::arithmetic::div_mod::lemma_div_denominator(n, 10, 10);
    vstd::arithmetic::div_mod::lemma_fundamental_div_mod(n / 100, 10);
    vstd::arithmetic::div_mod::lemma_div_denominator(n, 100, 10);
}

/// Law: serializing a valid timestamp at seconds precision and parsing the
/// text back yields the same local-time instant, exactly.
#[verifier::rlimit(60)]
pub proof fn lemma_rfc3339_round_trip(t: Timestamp)
    requires
        t.valid(),
    ensures
        parse_rfc3339_text(rfc3339_text(t)) == Some(t),
{
    let s = rfc3339_text(t);
    let y = t.year as int;
    let mo = t.month as int;
    let d = t.day as int;
    let h = t.hour as int;
    let mi = t.minute as int;
    let sec = t.second as int;
    let om = t.offset_minutes as int;
    lemma_digit(y / 1000);
    lemma_digit((y / 100) % 10);
    lemma_digit((y / 10) % 10);
    lemma_digit(y % 10);
    lemma_digit(mo / 10);
    lemma_digit(mo % 10);
    lemma_digit(d / 10);
    lemma_digit(d % 10);
    lemma_digit(h / 10);
    lemma_digit(h % 10);
    lemma_digit(mi / 10);
    lemma_digit(mi % 10);
    lemma_digit(sec / 10);
    lemma_digit(sec % 10);
    assert(s[0] == digit_char(y / 1000));
    assert(s[1] == digit_char((y / 100) % 10));
    assert(s[2] == digit_char((y / 10) % 10));
    assert(s[3] == digit_char(y % 10));
    assert(s[4] == '-');
    assert(s[5] == digit_char(mo / 10));
    assert(s[6] == digit_char(mo % 10));
    assert(s[7] == '-');
    assert(s[8] == digit_char(d / 10));
    assert(s[9] == digit_char(d % 10));
    assert(s[10] == 'T');
    assert(s[11] == digit_char(h / 10));
    assert(s[12] == digit_char(h % 10));
    assert(s[13] == ':');
    assert(s[14] == digit_char(mi / 10));
    assert(s[15] == digit_char(mi % 10));
    assert(s[16] == ':');
    assert(s[17] == digit_char(sec / 10));
    assert(s[18] == digit_char(sec % 10));
    lemma_dec4_recompose(y);
    lemma_dec2_recompose(mo);
    lemma_dec2_recompose(d);
    lemma_dec2_recompose(h);
    lemma_dec2_recompose(mi);
    lemma_dec2_recompose(sec);
    assert(core_shape(s));
    assert(read4(s, 0) == y);
    assert(read2(s, 5) == mo);
    assert(read2(s, 8) == d);
    assert(read2(s, 11) == h);
    assert(read2(s, 14) == mi);
    assert(read2(s, 17) == sec);
    if om == 0 {
        assert(s.len() == 20);
        assert(s[19] == 'Z');
        assert(offset_shape(s));
        assert(parsed_offset(s) == 0);
    } else {
        let ao = if om > 0 { om } else { -om };
        lemma_digit((ao / 60) / 10);
        lemma_digit((ao / 60) % 10);
        lemma_digit((ao % 60) / 10);
        lemma_digit((ao % 60) % 10);
        assert(s.len() == 25);
        assert(s[20] == digit_char((ao / 60) / 10));
        assert(s[21] == digit_char((ao / 60) % 10));
        assert(s[22] == ':');
        assert(s[23] == digit_char((ao % 60) / 10));
        assert(s[24] == digit_char((ao % 60) % 10));
        lemma_dec2_recompose(ao / 60);
        lemma_dec2_recompose(ao % 60);
        assert(read2(s, 20) == ao / 60);
        assert(read2(s, 23) == ao % 60);
        vstd::arithmetic::div_mod::lemma_fundamental_div_mod(ao, 60);
        assert(read2(s, 20) * 60 + read2(s, 23) == ao);
        if om > 0 {
            assert(s[19] == '+');
        } else {
            assert(s[19] == '-');
        }
        assert(offset_shape(s));
        assert(parsed_offset(s) == om);
    }
    assert(parsed_ts(s) == t);
}

} // verus!
