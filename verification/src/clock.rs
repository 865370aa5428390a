//! The local time, as the log stamps it: `YYYY-MM-DD HH:MM:SS`.
//!
//! The clock reading and the local calendar fields of an instant come from std and
//! chrono; the text is written here.
use vstd::prelude::*;
use vstd::string::StringExecFns;
use crate::text::{chars_of, decimal_text, push_char, to_decimal};

verus! {

/// `std::time::SystemTime`, a reading of the system clock; carried, never inspected.
#[verifier::external_type_specification]
#[verifier::external_body]
pub struct ExSystemTime(std::time::SystemTime);

/// `std::time::SystemTime::now()`: the system clock's reading. Nothing is stated of it.
#[verifier::external_body]
fn system_time_now() -> std::time::SystemTime {
    std::time::SystemTime::now()
}

/// Where `t` lies from the Unix epoch, by `SystemTime::duration_since(UNIX_EPOCH)`:
/// `(false, s, n)` for `s` seconds and `n` nanoseconds after it (`Duration::as_secs`,
/// `Duration::subsec_nanos`), `(true, s, n)` for that much before it (the error's
/// `SystemTimeError::duration`). Stated: the nanoseconds are below one billion, as
/// `subsec_nanos` documents; the rest depends on the reading.
#[verifier::external_body]
fn epoch_offset_of(t: &std::time::SystemTime) -> (r: (bool, u64, u32))
    ensures
        r.2 < 1_000_000_000,
{
    match t.duration_since(std::time::UNIX_EPOCH) {
        Ok(d) => (false, d.as_secs(), d.subsec_nanos()),
        Err(e) => (true, e.duration().as_secs(), e.duration().subsec_nanos()),
    }
}

/// The local calendar date and time of an instant.
#[derive(Debug, Clone, Copy, PartialEq, Eq, Structural)]
pub struct LocalFields {
    pub year: i32,
    pub month: u32,
    pub day: u32,
    pub hour: u32,
    pub minute: u32,
    pub second: u32,
    /// Nanoseconds of the second; from one billion on, a leap second.
    pub nanosecond: u32,
}

/// The local date and time of the instant `secs` seconds and `nanos` nanoseconds after
/// the Unix epoch: `chrono::Local.timestamp_opt(secs, nanos).single()`, read with
/// `Datelike::{year, month, day}` and `Timelike::{hour, minute, second, nanosecond}`;
/// `None` where chrono finds no single local time (outside its range of dates).
///
/// Stated: the ranges chrono's traits document (month 1 to 12, day 1 to 31, hour 0 to
/// 23, minute and second 0 to 59, nanosecond below two billion). Which date it is depends
/// on the machine's time zone, and is not stated. No input makes it panic: out of range,
/// `timestamp_opt` gives no time.
#[verifier::external_body]
fn local_fields_at(secs: i64, nanos: u32) -> (r: Option<LocalFields>)
    ensures
        r matches Some(f) ==> 1 <= f.month <= 12 && 1 <= f.day <= 31 && f.hour <= 23 && f.minute <= 59
            && f.second <= 59 && f.nanosecond < 2_000_000_000,
{
    match chrono::TimeZone::timestamp_opt(&chrono::Local, secs, nanos).single() {
        Some(t) => Some(LocalFields {
            year: chrono::Datelike::year(&t),
            month: chrono::Datelike::month(&t),
            day: chrono::Datelike::day(&t),
            hour: chrono::Timelike::hour(&t),
            minute: chrono::Timelike::minute(&t),
            second: chrono::Timelike::second(&t),
            nanosecond: chrono::Timelike::nanosecond(&t),
        }),
        None => None,
    }
}

/// The instant `(before, secs, nanos)` (see `epoch_offset_of`) as signed seconds and the
/// nanoseconds of that second, counted from the epoch; `None` where the seconds do not
/// fit an `i64`.
pub open spec fn signed_instant(before: bool, secs: nat, nanos: nat) -> Option<(int, nat)> {
    if !before {
        if secs <= i64::MAX { Some((secs as int, nanos)) } else { None }
    } else if nanos == 0 {
        if secs <= i64::MAX + 1 { Some((-secs, 0)) } else { None }
    } else {
        if secs + 1 <= i64::MAX + 1 { Some((-secs - 1, (1_000_000_000 - nanos) as nat)) } else { None }
    }
}

/// Signed seconds and nanoseconds of an instant given as a distance from the epoch (see
/// `signed_instant`).
pub fn instant_from_epoch_offset(before: bool, secs: u64, nanos: u32) -> (r: Option<(i64, u32)>)
    requires
        nanos < 1_000_000_000,
    ensures
        match signed_instant(before, secs as nat, nanos as nat) {
            Some(p) => r matches Some(q) && q.0 as int == p.0 && q.1 as nat == p.1,
            None => r is None,
        },
        r matches Some(q) ==> q.1 < 1_000_000_000,
{
    if !before {
        if secs <= 0x7fff_ffff_ffff_ffff { Some((secs as i64, nanos)) } else { None }
    } else if nanos == 0 {
        if secs <= 0x7fff_ffff_ffff_ffff {
            Some((0 - (secs as i64), 0))
        } else if secs == 0x8000_0000_0000_0000 {
            Some((i64::MIN, 0))
        } else {
            None
        }
    } else {
        if secs <= 0x7fff_ffff_ffff_ffff {
            Some((0 - (secs as i64) - 1, 1_000_000_000 - nanos))
        } else {
            None
        }
    }
}

/// `n` in decimal, padded with zeros on the left to `width` digits.
pub open spec fn zero_padded(n: nat, width: nat) -> Seq<char> {
    let d = decimal_text(n);
    if d.len() >= width { d } else { Seq::new((width - d.len()) as nat, |_i: int| '0') + d }
}

/// The year as `%Y` writes it: four digits at least, with a sign outside 0 to 9999.
pub open spec fn year_text(y: int) -> Seq<char> {
    if 0 <= y <= 9999 {
        zero_padded(y as nat, 4)
    } else if y > 9999 {
        "+"@ + zero_padded(y as nat, 4)
    } else {
        "-"@ + zero_padded((-y) as nat, 4)
    }
}

/// The second as `%S` writes it: a leap second counts as second 60.
pub open spec fn shown_second(f: LocalFields) -> nat {
    (f.second + f.nanosecond / 1_000_000_000) as nat
}

/// `f` written `%Y-%m-%d %H:%M:%S`.
pub open spec fn stamp_text(f: LocalFields) -> Seq<char> {
    year_text(f.year as int) + "-"@ + zero_padded(f.month as nat, 2) + "-"@ + zero_padded(f.day as nat, 2) + " "@
        + zero_padded(f.hour as nat, 2) + ":"@ + zero_padded(f.minute as nat, 2) + ":"@
        + zero_padded(shown_second(f), 2)
}

/// Writes `n` zero-padded to `width` digits (see `zero_padded`).
pub fn write_zero_padded(out: &mut String, n: u64, width: usize)
    ensures
        final(out)@ == old(out)@ + zero_padded(n as nat, width as nat),
{
    let d = to_decimal(n);
    let digits = chars_of(d.as_str());
    let ghost start = out@;
    if digits.len() < width {
        let pad = width - digits.len();
        let mut i: usize = 0;
        while i < pad
            invariant
                i <= pad,
                out@ == start + Seq::new(i as nat, |_j: int| '0'),
            decreases pad - i,
        {
            push_char(out, '0');
            i = i + 1;
            assert(out@ =~= start + Seq::new(i as nat, |_j: int| '0'));
        }
        out.append(d.as_str());
        assert(out@ =~= start + zero_padded(n as nat, width as nat));
    } else {
        out.append(d.as_str());
    }
}

/// Writes the year as `%Y` does (see `year_text`).
pub fn write_year(out: &mut String, y: i32)
    ensures
        final(out)@ == old(out)@ + year_text(y as int),
{
    proof {
        reveal_strlit("+");
        reveal_strlit("-");
    }
    let ghost start = out@;
    if 0 <= y && y <= 9999 {
        write_zero_padded(out, y as u64, 4);
    } else if y > 9999 {
        push_char(out, '+');
        write_zero_padded(out, y as u64, 4);
        assert(out@ =~= start + year_text(y as int));
    } else {
        push_char(out, '-');
        let a: u64 = (0 - (y as i64)) as u64;
        write_zero_padded(out, a, 4);
        assert(out@ =~= start + year_text(y as int));
    }
}

/// Writes `f` as `%Y-%m-%d %H:%M:%S` (see `stamp_text`).
pub fn format_stamp(f: &LocalFields) -> (s: String)
    requires
        f.second <= 60,
        f.nanosecond < 2_000_000_000,
    ensures
        s@ == stamp_text(*f),
{
    proof {
        reveal_strlit("-");
        reveal_strlit(" ");
        reveal_strlit(":");
    }
    let mut s = String::new();
    write_year(&mut s, f.year);
    push_char(&mut s, '-');
    write_zero_padded(&mut s, f.month as u64, 2);
    push_char(&mut s, '-');
    write_zero_padded(&mut s, f.day as u64, 2);
    push_char(&mut s, ' ');
    write_zero_padded(&mut s, f.hour as u64, 2);
    push_char(&mut s, ':');
    write_zero_padded(&mut s, f.minute as u64, 2);
    push_char(&mut s, ':');
    let sec: u64 = f.second as u64 + (f.nanosecond / 1_000_000_000) as u64;
    write_zero_padded(&mut s, sec, 2);
    assert(s@ =~= stamp_text(*f));
    s
}

/// The local time now, written `YYYY-MM-DD HH:MM:SS`; an empty text where the clock's
/// reading lies outside the dates chrono can represent.
pub(crate) fn local_time_stamp() -> String {
    let now = system_time_now();
    let (before, secs, nanos) = epoch_offset_of(&now);
    match instant_from_epoch_offset(before, secs, nanos) {
        Some((s, n)) => match local_fields_at(s, n) {
            Some(f) => format_stamp(&f),
            None => String::new(),
        },
        None => String::new(),
    }
}

} // verus!
