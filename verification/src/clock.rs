use vstd::prelude::*;
use crate::timefmt::Timestamp;
use chrono::Datelike;
use chrono::Timelike;

verus! {

/// Relies on chrono's `From<SystemTime>` conversion for `DateTime<Local>`
/// and on chrono's Datelike/Timelike accessors: the current local civil
/// time, field by field.  The conversion handles a pre-epoch clock without
/// panicking, where `Local::now` would not.  chrono documents the month in
/// 1..=12, the day of month in 1..=31, the hour below 24, the minute and
/// the second below 60, and a fixed local offset strictly within one day
/// of seconds.
#[verifier::external_body]
fn clock_now_fields() -> (r: (i64, u32, u32, u32, u32, u32, i32))
    ensures
        1 <= r.1 <= 12,
        1 <= r.2 <= 31,
        r.3 < 24,
        r.4 < 60,
        r.5 < 60,
        -86400 < r.6 < 86400,
{
    let n = chrono::DateTime::<chrono::Local>::from(std::time::SystemTime::now());
    (
        n.year() as i64,
        n.month(),
        n.day(),
        n.hour(),
        n.minute(),
        n.second(),
        n.offset().local_minus_utc(),
    )
}

/// Which raw clock readings the library accepts, and the timestamp each
/// accepted one denotes: the year must have four decimal digits, the other
/// fields must be in calendar range, and the offset must be a whole number
/// of minutes, at most 1439 in magnitude; the fields must then form a
/// valid timestamp.  Everything else is refused.
pub open spec fn clock_fields_timestamp(
    y: int,
    mo: int,
    d: int,
    h: int,
    mi: int,
    s: int,
    off_secs: int,
) -> Option<Timestamp> {
    let mag = if off_secs >= 0 {
        off_secs
    } else {
        -off_secs
    };
    if 0 <= y <= 9999 && 1 <= mo <= 12 && 1 <= d <= 31 && 0 <= h <= 23 && 0 <= mi <= 59 && 0 <= s
        <= 59 && mag % 60 == 0 {
        let om = if off_secs >= 0 {
            mag / 60
        } else {
            -(mag / 60)
        };
        if -1439 <= om <= 1439 {
            let t = Timestamp {
                year: y as u16,
                month: mo as u8,
                day: d as u8,
                hour: h as u8,
                minute: mi as u8,
                second: s as u8,
                offset_minutes: om as i16,
            };
            if t.valid() {
                Some(t)
            } else {
                None
            }
        } else {
            None
        }
    } else {
        None
    }
}

/// Validates one raw clock reading, accepting exactly what
/// `clock_fields_timestamp` accepts and denoting the same timestamp.
pub fn from_clock_fields(
    y: i64,
    mo: u32,
    d: u32,
    h: u32,
    mi: u32,
    s: u32,
    off_secs: i32,
) -> (r: Option<Timestamp>)
    ensures
        r == clock_fields_timestamp(
            y as int,
            mo as int,
            d as int,
            h as int,
            mi as int,
            s as int,
            off_secs as int,
        ),
{
    if y < 0 || y > 9999 {
        return None;
    }
    if mo < 1 || mo > 12 || d < 1 || d > 31 || h > 23 || mi > 59 || s > 59 {
        return None;
    }
    let mag: u32 = if off_secs >= 0 {
        off_secs as u32
    } else {
        (-(off_secs as i64)) as u32
    };
    if mag % 60 != 0 {
        return None;
    }
    let q: i32 = (mag / 60) as i32;
    let om: i32 = if off_secs >= 0 {
        q
    } else {
        -q
    };
    if om < -1439 || om > 1439 {
        return None;
    }
    Timestamp::new(y as u16, mo as u8, d as u8, h as u8, mi as u8, s as u8, om as i16)
}

/// The current local time as a validated timestamp: the clock reading is
/// put through `from_clock_fields`, so `None` comes only from a reading
/// that `clock_fields_timestamp` refuses.
pub fn now_local() -> (r: Option<Timestamp>)
    ensures
        r matches Some(t) ==> t.valid(),
{
    let (y, mo, d, h, mi, s, off) = clock_now_fields();
    from_clock_fields(y, mo, d, h, mi, s, off)
}

} // verus!
