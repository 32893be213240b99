//! Synchronisation of the emulated real-time clock with the host clock.

use vstd::prelude::*;

use crate::bcd::{bcd_from_binary, bcd_of, bcd_representable};
use crate::error::Error;

verus! {

/// Frames between two synchronisations while host sync is enabled.
pub const RTC_SYNC_DELAY_FRAMES: u32 = 60;

/// Address in general RAM where the device keeps the BCD century.
pub const CENTURY_ADDRESS: u32 = 0xcf;

/// Broken-down host wall-clock time, with the C library's conventions.
#[derive(Clone, Copy, Debug, PartialEq, Eq, Structural)]
pub struct HostTime {
    /// Seconds after the minute, 0 to 60.
    pub tm_sec: i32,
    /// Minutes after the hour.
    pub tm_min: i32,
    /// Hours after midnight.
    pub tm_hour: i32,
    /// Day of the month.
    pub tm_mday: i32,
    /// Months since January.
    pub tm_mon: i32,
    /// Years since 1900.
    pub tm_year: i32,
    /// Days since Sunday.
    pub tm_wday: i32,
}

/// BCD register values written to the emulated clock.
#[derive(Clone, Copy, Debug, PartialEq, Eq, Structural)]
pub struct RtcRegisters {
    /// Century, stored in RAM at `CENTURY_ADDRESS`.
    pub century: u8,
    pub seconds: u8,
    pub minutes: u8,
    pub hours: u8,
    /// Day of the week, counted from 1.
    pub week_day: u8,
    pub day: u8,
    /// Month, counted from 1.
    pub month: u8,
    /// Two-digit year.
    pub year: u8,
}

/// The full year of a host time.
pub open spec fn full_year(t: HostTime) -> int {
    t.tm_year + 1900
}

/// Seconds with leap seconds (and any other stray value) collapsed to 59.
pub open spec fn clamped_seconds(s: int) -> int {
    if 0 <= s <= 59 { s } else { 59 }
}

/// Whether every field of `t` has a two-digit BCD form once converted.
pub open spec fn host_time_encodable(t: HostTime) -> bool {
    &&& 0 <= full_year(t)
    &&& bcd_representable(full_year(t) / 100)
    &&& bcd_representable(t.tm_min as int)
    &&& bcd_representable(t.tm_hour as int)
    &&& bcd_representable(t.tm_wday + 1)
    &&& bcd_representable(t.tm_mday + 1)
    &&& bcd_representable(t.tm_mon + 1)
}

/// The clock registers that a host time is written as.
pub open spec fn registers_of(t: HostTime) -> RtcRegisters {
    RtcRegisters {
        century: bcd_of(full_year(t) / 100) as u8,
        seconds: bcd_of(clamped_seconds(t.tm_sec as int)) as u8,
        minutes: bcd_of(t.tm_min as int) as u8,
        hours: bcd_of(t.tm_hour as int) as u8,
        week_day: bcd_of(t.tm_wday + 1) as u8,
        day: bcd_of(t.tm_mday + 1) as u8,
        month: bcd_of(t.tm_mon + 1) as u8,
        year: bcd_of(full_year(t) % 100) as u8,
    }
}

/// Whether `t` lies in the ranges that the C library documents.
pub open spec fn host_time_in_range(t: HostTime) -> bool {
    &&& 0 <= t.tm_sec <= 60
    &&& 0 <= t.tm_min <= 59
    &&& 0 <= t.tm_hour <= 23
    &&& 1 <= t.tm_mday <= 31
    &&& 0 <= t.tm_mon <= 11
    &&& 0 <= t.tm_wday <= 6
}

/// Converts one binary clock field to BCD, rejecting values without a
/// two-digit form.
fn field_bcd(v: i64) -> (r: Result<u8, Error>)
    ensures
        r is Ok <==> bcd_representable(v as int),
        r matches Ok(b) ==> b as int == bcd_of(v as int),
        r matches Err(e) ==> e == Error::BcdRangeViolation,
{
    if v < 0 || v > 99 {
        return Err(Error::BcdRangeViolation);
    }
    match bcd_from_binary(v as u8) {
        Some(b) => Ok(b),
        None => Err(Error::BcdRangeViolation),
    }
}

/// Computes the clock registers for host time `t`. Fails with
/// `BcdRangeViolation` when a field has no two-digit BCD form.
pub fn rtc_registers(t: &HostTime) -> (r: Result<RtcRegisters, Error>)
    ensures
        r is Ok <==> host_time_encodable(*t),
        r matches Ok(regs) ==> regs == registers_of(*t),
        r matches Err(e) ==> e == Error::BcdRangeViolation,
{
    let year: i64 = t.tm_year as i64 + 1900;
    if year < 0 {
        return Err(Error::BcdRangeViolation);
    }
    let century = field_bcd(year / 100)?;
    let secs: i64 = if 0 <= t.tm_sec && t.tm_sec <= 59 {
        t.tm_sec as i64
    } else {
        59
    };
    let seconds = field_bcd(secs)?;
    let minutes = field_bcd(t.tm_min as i64)?;
    let hours = field_bcd(t.tm_hour as i64)?;
    let week_day = field_bcd(t.tm_wday as i64 + 1)?;
    let day = field_bcd(t.tm_mday as i64 + 1)?;
    let month = field_bcd(t.tm_mon as i64 + 1)?;
    let yy = field_bcd(year % 100)?;
    Ok(RtcRegisters { century, seconds, minutes, hours, week_day, day, month, year: yy })
}

/// Relies on time::now: the local broken-down time, whose fields lie in the
/// ranges that `time::Tm` documents.
#[verifier::external_body]
fn host_now() -> (r: HostTime)
    ensures
        host_time_in_range(r),
{
    let tm = time::now();
    HostTime {
        tm_sec: tm.tm_sec,
        tm_min: tm.tm_min,
        tm_hour: tm.tm_hour,
        tm_mday: tm.tm_mday,
        tm_mon: tm.tm_mon,
        tm_year: tm.tm_year,
        tm_wday: tm.tm_wday,
    }
}

/// Reads the host clock and computes the registers to write to the emulated
/// clock. The result is the conversion of some host time within the
/// documented ranges; it fails only for a year outside 0 to 9999.
pub fn sync_host_rtc() -> (r: Result<RtcRegisters, Error>)
    ensures
        exists|t: HostTime|
            #![trigger host_time_in_range(t)]
            host_time_in_range(t) && (r is Ok <==> (0 <= full_year(t) <= 9999)) && (r matches Ok(
                regs,
            ) ==> regs == registers_of(t)),
        r matches Err(e) ==> e == Error::BcdRangeViolation,
{
    let now = host_now();
    let r = rtc_registers(&now);
    assert(host_time_in_range(now) && (r is Ok <==> (0 <= full_year(now) <= 9999)) && (r matches Ok(
        regs,
    ) ==> regs == registers_of(now)));
    r
}

/// A leap second, or any seconds value past 59, is written as BCD 59; the
/// other fields are converted as usual.
pub proof fn lemma_leap_second_clamped(t: HostTime)
    requires
        t.tm_sec > 59,
    ensures
        clamped_seconds(t.tm_sec as int) == 59,
        registers_of(t).seconds == 0x59,
{
}

} // verus!
