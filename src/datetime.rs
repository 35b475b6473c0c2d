//! Calendar and clock registers: the packed-BCD codec, the hours encoding,
//! the accessors of single fields, and the accessors of the date and time
//! as a whole.
use vstd::prelude::*;
use embedded_hal::i2c::I2c;
use rtcc::{Datelike, Hours, NaiveDate, NaiveTime};
use crate::register_access::{
    block_read, first_new, one_read, one_write, read_then_maybe_write, rejected, reports,
    reports_checked, BitFlags,
    Register,
};
use crate::{Ds1307, Error, Transfer};

verus! {

/// A calendar date.
#[verifier::external_type_specification]
#[verifier::external_body]
pub struct ExNaiveDate(rtcc::NaiveDate);

/// A time of day.
#[verifier::external_type_specification]
#[verifier::external_body]
pub struct ExNaiveTime(rtcc::NaiveTime);

/// The decimal that a packed-BCD byte holds: tens in the high nibble, units
/// in the low one. A nibble above nine is taken at its value.
pub open spec fn bcd_decimal(b: u8) -> u8 {
    ((b / 16) * 10 + b % 16) as u8
}

/// The packed-BCD byte of `d`: tens in the high nibble, units in the low
/// one; only the low eight bits are kept.
pub open spec fn bcd_byte(d: u8) -> u8 {
    (((d / 10) * 16 + d % 10) % 256) as u8
}

/// Transforms a number in packed BCD format to decimal.
pub fn packed_bcd_to_decimal(bcd: u8) -> (r: u8)
    ensures
        r == bcd_decimal(bcd),
        r <= 165,
{
    assert((bcd >> 4u8) <= 15 && (bcd & 0xF) == bcd % 16 && (bcd >> 4u8) == bcd / 16)
        by (bit_vector);
    (bcd >> 4) * 10 + (bcd & 0xF)
}

/// Transforms a decimal number to packed BCD format.
pub fn decimal_to_packed_bcd(dec: u8) -> (r: u8)
    ensures
        r == bcd_byte(dec),
{
    assert((((dec / 10) << 4u8) | (dec % 10)) == (((dec / 10) * 16 + dec % 10) % 256) as u8)
        by (bit_vector);
    ((dec / 10) << 4) | (dec % 10)
}

/// Every decimal from 0 to 99 comes back from its packed-BCD byte.
pub proof fn lemma_bcd_round_trip(d: u8)
    requires
        d <= 99,
    ensures
        bcd_decimal(bcd_byte(d)) == d,
        bcd_byte(d) < 0xA0,
{
    assert(d <= 99 ==> bcd_decimal(bcd_byte(d)) == d && bcd_byte(d) < 0xA0) by (bit_vector);
}

/// Whether `h` is an hour that the chip can hold: 0 to 23 in 24-hour mode,
/// 1 to 12 with AM or PM.
pub open spec fn hours_valid(h: Hours) -> bool {
    match h {
        Hours::H24(v) => v <= 23,
        Hours::AM(v) => 1 <= v <= 12,
        Hours::PM(v) => 1 <= v <= 12,
    }
}

/// The hours register byte for `h`: the mode bit set for 12-hour mode, the
/// AM/PM bit set for PM, and the hour in packed BCD.
pub open spec fn hours_byte(h: Hours) -> u8 {
    match h {
        Hours::H24(v) => bcd_byte(v),
        Hours::AM(v) => BitFlags::H24_H12 | bcd_byte(v),
        Hours::PM(v) => BitFlags::H24_H12 | BitFlags::AM_PM | bcd_byte(v),
    }
}

/// The hour that the hours register byte `d` holds, read in the mode that
/// its mode bit selects: from the low six bits in 24-hour mode, from the low
/// five bits in 12-hour mode.
pub open spec fn hours_of_byte(d: u8) -> Hours {
    if d & BitFlags::H24_H12 == 0 {
        Hours::H24(bcd_decimal(d & 0x3F))
    } else if d & BitFlags::AM_PM == 0 {
        Hours::AM(bcd_decimal(d & 0x1F))
    } else {
        Hours::PM(bcd_decimal(d & 0x1F))
    }
}

/// The hour of `h` on a 24-hour clock, where PM adds twelve.
pub open spec fn h24_of(h: Hours) -> int {
    match h {
        Hours::H24(v) => v as int,
        Hours::AM(v) => v as int,
        Hours::PM(v) => v + 12,
    }
}

fn is_24h_format(hours_data: u8) -> (r: bool)
    ensures
        r == (hours_data & BitFlags::H24_H12 == 0),
{
    hours_data & BitFlags::H24_H12 == 0
}

fn is_am(hours_data: u8) -> (r: bool)
    ensures
        r == (hours_data & BitFlags::AM_PM == 0),
{
    hours_data & BitFlags::AM_PM == 0
}

fn remove_ch_bit(value: u8) -> (r: u8)
    ensures
        r == value & !BitFlags::CH,
{
    value & !BitFlags::CH
}

/// The hour that an hours register byte holds.
pub fn get_hours_from_register(data: u8) -> (r: Hours)
    ensures
        r == hours_of_byte(data),
{
    if is_24h_format(data) {
        Hours::H24(packed_bcd_to_decimal(data & 0x3F))
    } else if is_am(data) {
        Hours::AM(packed_bcd_to_decimal(data & 0x1F))
    } else {
        Hours::PM(packed_bcd_to_decimal(data & 0x1F))
    }
}

/// The hours register byte for `hours`, or `None` where the hour is out of
/// its range.
pub fn get_hours_register_value(hours: Hours) -> (r: Option<u8>)
    ensures
        r == (if hours_valid(hours) { Some(hours_byte(hours)) } else { None::<u8> }),
{
    match hours {
        Hours::H24(h) => {
            if h > 23 {
                None
            } else {
                Some(decimal_to_packed_bcd(h))
            }
        },
        Hours::AM(h) => {
            if h < 1 || h > 12 {
                None
            } else {
                Some(BitFlags::H24_H12 | decimal_to_packed_bcd(h))
            }
        },
        Hours::PM(h) => {
            if h < 1 || h > 12 {
                None
            } else {
                Some(BitFlags::H24_H12 | BitFlags::AM_PM | decimal_to_packed_bcd(h))
            }
        },
    }
}

/// The hour of `hour` on a 24-hour clock, where PM adds twelve.
pub fn get_h24(hour: Hours) -> (r: u8)
    requires
        hour matches Hours::PM(v) ==> v <= 243,
    ensures
        r == h24_of(hour),
{
    match hour {
        Hours::H24(h) => h,
        Hours::AM(h) => h,
        Hours::PM(h) => h + 12,
    }
}

/// The hour of `h` on a 24-hour clock: 12 AM is midnight, 12 PM is noon.
pub open spec fn hour_of_day(h: Hours) -> int {
    match h {
        Hours::H24(v) => v as int,
        Hours::AM(v) => if v == 12 { 0 } else { v as int },
        Hours::PM(v) => if v == 12 { 12 } else { v + 12 },
    }
}

/// The hour of `hour` on a 24-hour clock, 0 to 23, or `None` where the hour
/// is out of its range.
pub fn get_hour_of_day(hour: Hours) -> (r: Option<u8>)
    ensures
        r == (if hours_valid(hour) { Some(hour_of_day(hour) as u8) } else { None::<u8> }),
        r matches Some(v) ==> v < 24,
{
    match hour {
        Hours::H24(h) => {
            if h > 23 {
                None
            } else {
                Some(h)
            }
        },
        Hours::AM(h) => {
            if h < 1 || h > 12 {
                None
            } else if h == 12 {
                Some(0)
            } else {
                Some(h)
            }
        },
        Hours::PM(h) => {
            if h < 1 || h > 12 {
                None
            } else if h == 12 {
                Some(12)
            } else {
                Some(h + 12)
            }
        },
    }
}

/// Every hour that the chip can hold comes back from its register byte.
pub proof fn lemma_hours_round_trip(h: Hours)
    requires
        hours_valid(h),
    ensures
        hours_of_byte(hours_byte(h)) == h,
{
    match h {
        Hours::H24(v) => {
            assert(v <= 23 ==> bcd_byte(v) & 0x40u8 == 0 && bcd_decimal(bcd_byte(v) & 0x3Fu8) == v)
                by (bit_vector);
        },
        Hours::AM(v) => {
            assert(1 <= v <= 12 ==> (0x40u8 | bcd_byte(v)) & 0x40u8 != 0 && (0x40u8 | bcd_byte(v))
                & 0x20u8 == 0 && bcd_decimal((0x40u8 | bcd_byte(v)) & 0x1Fu8) == v)
                by (bit_vector);
        },
        Hours::PM(v) => {
            assert(1 <= v <= 12 ==> (0x40u8 | 0x20u8 | bcd_byte(v)) & 0x40u8 != 0 && (0x40u8
                | 0x20u8 | bcd_byte(v)) & 0x20u8 != 0 && bcd_decimal(
                (0x40u8 | 0x20u8 | bcd_byte(v)) & 0x1Fu8,
            ) == v) by (bit_vector);
        },
    }
}

/// Whether `year` is a leap year of the Gregorian calendar.
pub open spec fn is_leap_year(year: int) -> bool {
    year % 4 == 0 && (year % 100 != 0 || year % 400 == 0)
}

/// The number of days of month `month` of `year`.
pub open spec fn days_in_month(year: int, month: int) -> int {
    if month == 2 {
        if is_leap_year(year) { 29 } else { 28 }
    } else if month == 4 || month == 6 || month == 9 || month == 11 {
        30
    } else {
        31
    }
}

/// Whether `day` of `month` of `year` is a day of the Gregorian calendar.
pub open spec fn is_calendar_date(year: int, month: int, day: int) -> bool {
    1 <= month <= 12 && 1 <= day <= days_in_month(year, month)
}

/// Relies on chrono's `NaiveDate::from_ymd_opt` (re-exported by rtcc): a
/// date exists exactly where month and day fit the Gregorian calendar, for
/// years far wider than a `u16`.
#[verifier::external_body]
fn calendar_date(year: u16, month: u8, day: u8) -> (r: Option<NaiveDate>)
    ensures
        r is Some == is_calendar_date(year as int, month as int, day as int),
{
    NaiveDate::from_ymd_opt(year as i32, month as u32, day as u32)
}

/// The day of the week of a day of the Gregorian calendar, from 1 for a
/// Sunday to 7 for a Saturday, by Zeller's congruence (January and February
/// count as months 13 and 14 of the year before).
pub open spec fn weekday_of(year: int, month: int, day: int) -> int {
    let m = if month < 3 { month + 12 } else { month };
    let y = if month < 3 { year - 1 } else { year };
    let h = (day + (13 * (m + 1)) / 5 + y + y / 4 - y / 100 + y / 400) % 7;
    (h + 6) % 7 + 1
}

/// Relies on chrono's `NaiveDate::from_ymd_opt`, `Datelike::weekday` and
/// `Weekday::number_from_sunday` (re-exported by rtcc): the day of the week
/// of a day of the calendar, from 1 for a Sunday to 7 for a Saturday.
/// `from_ymd_opt` returns a date for every such day, so `unwrap` does not panic.
#[verifier::external_body]
fn weekday_from_sunday(year: u16, month: u8, day: u8) -> (r: u8)
    requires
        is_calendar_date(year as int, month as int, day as int),
    ensures
        r as int == weekday_of(year as int, month as int, day as int),
{
    NaiveDate::from_ymd_opt(year as i32, month as u32, day as u32)
        .unwrap()
        .weekday()
        .number_from_sunday() as u8
}

/// Relies on chrono's `NaiveTime::from_hms_opt` (re-exported by rtcc): a time
/// exists exactly where hour, minute and second are below 24, 60 and 60.
#[verifier::external_body]
fn time_of_day(hour: u8, minute: u8, second: u8) -> (r: Option<NaiveTime>)
    ensures
        r is Some == (hour < 24 && minute < 60 && second < 60),
{
    NaiveTime::from_hms_opt(hour as u32, minute as u32, second as u32)
}


/// A date and time of day, as the chip's seven clock registers hold it.
#[derive(Debug, Clone, Copy, PartialEq)]
pub struct DateTime {
    /// 2000 to 2099.
    pub year: u16,
    /// 1 to 12.
    pub month: u8,
    /// 1 to 31.
    pub day: u8,
    /// 1 to 7; which day is which is the caller's convention.
    pub weekday: u8,
    pub hour: Hours,
    /// 0 to 59.
    pub minute: u8,
    /// 0 to 59.
    pub second: u8,
}

/// A calendar date.
#[derive(Debug, Clone, Copy, PartialEq)]
pub struct Date {
    pub year: u16,
    pub month: u8,
    pub day: u8,
}

/// A time of day on a 24-hour clock.
#[derive(Debug, Clone, Copy, PartialEq)]
pub struct Time {
    pub hour: u8,
    pub minute: u8,
    pub second: u8,
}

/// Whether every field of `dt` is within the range that the chip can hold.
pub open spec fn datetime_in_range(dt: DateTime) -> bool {
    &&& 2000 <= dt.year <= 2099
    &&& 1 <= dt.month <= 12
    &&& 1 <= dt.day <= 31
    &&& 1 <= dt.weekday <= 7
    &&& hours_valid(dt.hour)
    &&& dt.minute <= 59
    &&& dt.second <= 59
}

/// Whether `dt` names a day of the calendar, a day of the week and a time
/// of day.
pub open spec fn is_valid_datetime(dt: DateTime) -> bool {
    &&& is_calendar_date(dt.year as int, dt.month as int, dt.day as int)
    &&& 1 <= dt.weekday <= 7
    &&& hours_valid(dt.hour)
    &&& dt.minute < 60
    &&& dt.second < 60
}

/// The seconds register byte that holds `seconds` and keeps the
/// oscillator-halt bit of `current`.
pub open spec fn seconds_byte(current: u8, seconds: u8) -> u8 {
    (current & BitFlags::CH) | bcd_byte(seconds)
}

/// The year register byte for `year`, which counts from 2000.
pub open spec fn year_byte(year: u16) -> u8 {
    bcd_byte((year - 2000) as u8)
}

/// The year that the year register byte `b` holds.
pub open spec fn year_of_byte(b: u8) -> u16 {
    (2000 + bcd_decimal(b)) as u16
}

/// The write that sets all seven clock registers to `dt`, keeping the
/// oscillator-halt bit of the seconds register byte `current`.
pub open spec fn datetime_payload(dt: DateTime, current: u8) -> Seq<u8> {
    seq![
        Register::SECONDS,
        seconds_byte(current, dt.second),
        bcd_byte(dt.minute),
        hours_byte(dt.hour),
        dt.weekday,
        bcd_byte(dt.day),
        bcd_byte(dt.month),
        year_byte(dt.year),
    ]
}

/// The date and time that the seven clock registers `regs` hold, from the
/// seconds register on.
pub open spec fn datetime_of_registers(regs: Seq<u8>) -> DateTime {
    DateTime {
        year: year_of_byte(regs[6]),
        month: bcd_decimal(regs[5]),
        day: bcd_decimal(regs[4]),
        weekday: regs[3],
        hour: hours_of_byte(regs[2]),
        minute: bcd_decimal(regs[1]),
        second: bcd_decimal(regs[0] & !BitFlags::CH),
    }
}

/// The date that the day, month and year registers `regs` hold.
pub open spec fn date_of_registers(regs: Seq<u8>) -> Date {
    Date { year: year_of_byte(regs[2]), month: bcd_decimal(regs[1]), day: bcd_decimal(regs[0]) }
}

/// The time that the seconds, minutes and hours registers `regs` hold.
pub open spec fn time_of_registers(regs: Seq<u8>) -> Time {
    Time {
        hour: hour_of_day(hours_of_byte(regs[2])) as u8,
        minute: bcd_decimal(regs[1]),
        second: bcd_decimal(regs[0] & !BitFlags::CH),
    }
}

/// The write of day of week, day, month and year for `date`, with `weekday`.
pub open spec fn date_payload(date: Date, weekday: u8) -> Seq<u8> {
    seq![Register::DOW, weekday, bcd_byte(date.day), bcd_byte(date.month), year_byte(date.year)]
}

/// The write of seconds, minutes and hours for `time`, keeping the
/// oscillator-halt bit of the seconds register byte `current`.
pub open spec fn time_payload(time: Time, current: u8) -> Seq<u8> {
    seq![
        Register::SECONDS,
        seconds_byte(current, time.second),
        bcd_byte(time.minute),
        bcd_byte(time.hour),
    ]
}

/// The oscillator-halt bit passes unchanged through every write of the
/// seconds, and the seconds come back from the byte written.
pub proof fn lemma_seconds_keep_halt_bit(current: u8, seconds: u8)
    requires
        seconds <= 59,
    ensures
        seconds_byte(current, seconds) & BitFlags::CH == current & BitFlags::CH,
        bcd_decimal(seconds_byte(current, seconds) & !BitFlags::CH) == seconds,
{
    assert(seconds <= 59 ==> ((current & 0x80u8) | bcd_byte(seconds)) & 0x80u8 == current & 0x80u8
        && bcd_decimal(((current & 0x80u8) | bcd_byte(seconds)) & !0x80u8) == seconds)
        by (bit_vector);
}

/// Whatever the seconds register held, `set_seconds` with a value in range
/// writes back its oscillator-halt bit unchanged, and the seconds that the
/// register then holds are the value given.
pub proof fn lemma_set_seconds_keeps_halt_bit(
    before: Seq<Transfer>,
    after: Seq<Transfer>,
    seconds: u8,
    r: Result<(), Error>,
)
    requires
        seconds <= 59,
        read_then_maybe_write(
            before,
            after,
            Register::SECONDS,
            Some(
                seq![
                    Register::SECONDS,
                    seconds_byte(first_new(before, after).read_byte(), seconds),
                ],
            ),
            r,
        ),
        first_new(before, after).succeeded(),
    ensures
        after.len() == before.len() + 2,
        after.last() is Write,
        after.last()->bytes.len() == 2,
        after.last()->bytes[1] & BitFlags::CH == first_new(before, after).read_byte()
            & BitFlags::CH,
        bcd_decimal(after.last()->bytes[1] & !BitFlags::CH) == seconds,
{
    lemma_seconds_keep_halt_bit(first_new(before, after).read_byte(), seconds);
}

/// The write of the whole date and time carries, for each field, the very
/// byte that the setter of that field alone writes.
pub proof fn lemma_datetime_write_matches_field_writes(dt: DateTime, current: u8)
    requires
        datetime_in_range(dt),
    ensures
        datetime_payload(dt, current).len() == 8,
        datetime_payload(dt, current)[0] == Register::SECONDS,
        datetime_payload(dt, current)[1] == seconds_byte(current, dt.second),
        datetime_payload(dt, current)[2] == bcd_byte(dt.minute),
        datetime_payload(dt, current)[3] == hours_byte(dt.hour),
        datetime_payload(dt, current)[4] == dt.weekday,
        datetime_payload(dt, current)[5] == bcd_byte(dt.day),
        datetime_payload(dt, current)[6] == bcd_byte(dt.month),
        datetime_payload(dt, current)[7] == year_byte(dt.year),
{
}

impl<I2C> Ds1307<I2C> where I2C: I2c {
    /// Read all seven clock registers in one transfer and decode them.
    pub fn datetime(&mut self) -> (r: Result<DateTime, Error>)
        ensures
            block_read(old(self).transfers(), final(self).transfers(), Register::SECONDS, 7),
            ({
                let t = final(self).transfers().last();
                let dt = datetime_of_registers(t.received());
                reports_checked(t, r, is_valid_datetime(dt), dt)
            }),
    {
        let sent: [u8; 1] = [Register::SECONDS];
        let mut data: [u8; 7] = [0; 7];
        let res = self.write_read_bytes(&sent, &mut data);
        assert(sent@ == seq![Register::SECONDS]);
        assert(self.transfers().drop_last() == old(self).transfers());
        if let Err(e) = res {
            return Err(e);
        }
        let hour = get_hours_from_register(data[2]);
        let dt = DateTime {
            year: 2000 + packed_bcd_to_decimal(data[6]) as u16,
            month: packed_bcd_to_decimal(data[5]),
            day: packed_bcd_to_decimal(data[4]),
            weekday: data[3],
            hour,
            minute: packed_bcd_to_decimal(data[1]),
            second: packed_bcd_to_decimal(remove_ch_bit(data[0])),
        };
        assert(dt == datetime_of_registers(data@));
        if calendar_date(dt.year, dt.month, dt.day).is_none() {
            return Err(Error::InvalidInputData);
        }
        if dt.weekday < 1 || dt.weekday > 7 {
            return Err(Error::InvalidInputData);
        }
        let hour_of_day = match get_hour_of_day(hour) {
            Some(h) => h,
            None => {
                return Err(Error::InvalidInputData);
            },
        };
        if time_of_day(hour_of_day, dt.minute, dt.second).is_none() {
            return Err(Error::InvalidInputData);
        }
        Ok(dt)
    }

    /// Check every field of `datetime`, then write all seven clock registers
    /// in one transfer, keeping the oscillator-halt bit.
    pub fn set_datetime(&mut self, datetime: &DateTime) -> (r: Result<(), Error>)
        ensures
            !datetime_in_range(*datetime) ==> rejected(
                old(self).transfers(),
                final(self).transfers(),
                r,
            ),
            datetime_in_range(*datetime) ==> read_then_maybe_write(
                old(self).transfers(),
                final(self).transfers(),
                Register::SECONDS,
                Some(
                    datetime_payload(
                        *datetime,
                        first_new(old(self).transfers(), final(self).transfers()).read_byte(),
                    ),
                ),
                r,
            ),
    {
        if datetime.year < 2000 || datetime.year > 2099 || datetime.month < 1 || datetime.month > 12
            || datetime.day < 1 || datetime.day > 31 || datetime.weekday < 1 || datetime.weekday > 7
            || datetime.minute > 59 || datetime.second > 59 {
            return Err(Error::InvalidInputData);
        }
        let hour = match get_hours_register_value(datetime.hour) {
            Some(h) => h,
            None => {
                return Err(Error::InvalidInputData);
            },
        };
        let ghost before = self.transfers();
        let current = match self.read_register(Register::SECONDS) {
            Ok(v) => v,
            Err(e) => {
                return Err(e);
            },
        };
        let ghost mid = self.transfers();
        let ch_flag = current & BitFlags::CH;
        let payload: [u8; 8] = [
            Register::SECONDS,
            ch_flag | decimal_to_packed_bcd(datetime.second),
            decimal_to_packed_bcd(datetime.minute),
            hour,
            datetime.weekday,
            decimal_to_packed_bcd(datetime.day),
            decimal_to_packed_bcd(datetime.month),
            decimal_to_packed_bcd((datetime.year - 2000) as u8),
        ];
        let r = self.write_bytes(&payload);
        assert(payload@ =~= datetime_payload(*datetime, current));
        assert(self.transfers().take(before.len() as int) =~= before);
        assert(first_new(before, self.transfers()) == mid.last());
        r
    }

    /// Read the day, month and year registers in one transfer.
    pub fn date(&mut self) -> (r: Result<Date, Error>)
        ensures
            block_read(old(self).transfers(), final(self).transfers(), Register::DOM, 3),
            ({
                let t = final(self).transfers().last();
                let d = date_of_registers(t.received());
                reports_checked(
                    t,
                    r,
                    is_calendar_date(d.year as int, d.month as int, d.day as int),
                    d,
                )
            }),
    {
        let sent: [u8; 1] = [Register::DOM];
        let mut data: [u8; 3] = [0; 3];
        let res = self.write_read_bytes(&sent, &mut data);
        assert(sent@ == seq![Register::DOM]);
        assert(self.transfers().drop_last() == old(self).transfers());
        if let Err(e) = res {
            return Err(e);
        }
        let date = Date {
            year: 2000 + packed_bcd_to_decimal(data[2]) as u16,
            month: packed_bcd_to_decimal(data[1]),
            day: packed_bcd_to_decimal(data[0]),
        };
        if calendar_date(date.year, date.month, date.day).is_none() {
            return Err(Error::InvalidInputData);
        }
        Ok(date)
    }

    /// Read the seconds, minutes and hours registers in one transfer.
    pub fn time(&mut self) -> (r: Result<Time, Error>)
        ensures
            block_read(old(self).transfers(), final(self).transfers(), Register::SECONDS, 3),
            ({
                let t = final(self).transfers().last();
                let regs = t.received();
                let tm = time_of_registers(regs);
                reports_checked(
                    t,
                    r,
                    hours_valid(hours_of_byte(regs[2])) && tm.minute < 60 && tm.second < 60,
                    tm,
                )
            }),
    {
        let sent: [u8; 1] = [Register::SECONDS];
        let mut data: [u8; 3] = [0; 3];
        let res = self.write_read_bytes(&sent, &mut data);
        assert(sent@ == seq![Register::SECONDS]);
        assert(self.transfers().drop_last() == old(self).transfers());
        if let Err(e) = res {
            return Err(e);
        }
        let hour = match get_hour_of_day(get_hours_from_register(data[2])) {
            Some(h) => h,
            None => {
                return Err(Error::InvalidInputData);
            },
        };
        let minute = packed_bcd_to_decimal(data[1]);
        let second = packed_bcd_to_decimal(remove_ch_bit(data[0]));
        if time_of_day(hour, minute, second).is_none() {
            return Err(Error::InvalidInputData);
        }
        Ok(Time { hour, minute, second })
    }

    /// Check `date`, then write day of week, day, month and year in one
    /// transfer; the day of the week is the calendar's, 1 for a Sunday.
    pub fn set_date(&mut self, date: &Date) -> (r: Result<(), Error>)
        ensures
            !(2000 <= date.year <= 2099 && is_calendar_date(
                date.year as int,
                date.month as int,
                date.day as int,
            )) ==> rejected(old(self).transfers(), final(self).transfers(), r),
            (2000 <= date.year <= 2099 && is_calendar_date(
                date.year as int,
                date.month as int,
                date.day as int,
            )) ==> one_write(
                old(self).transfers(),
                final(self).transfers(),
                date_payload(
                    *date,
                    weekday_of(date.year as int, date.month as int, date.day as int) as u8,
                ),
                r,
            ),
    {
        if date.year < 2000 || date.year > 2099 {
            return Err(Error::InvalidInputData);
        }
        if calendar_date(date.year, date.month, date.day).is_none() {
            return Err(Error::InvalidInputData);
        }
        let weekday = weekday_from_sunday(date.year, date.month, date.day);
        let payload: [u8; 5] = [
            Register::DOW,
            weekday,
            decimal_to_packed_bcd(date.day),
            decimal_to_packed_bcd(date.month),
            decimal_to_packed_bcd((date.year - 2000) as u8),
        ];
        let r = self.write_bytes(&payload);
        assert(payload@ =~= date_payload(*date, weekday));
        r
    }

    /// Check `time`, then write seconds, minutes and hours (24-hour mode)
    /// in one transfer, keeping the oscillator-halt bit.
    pub fn set_time(&mut self, time: &Time) -> (r: Result<(), Error>)
        ensures
            !(time.hour <= 23 && time.minute <= 59 && time.second <= 59) ==> rejected(
                old(self).transfers(),
                final(self).transfers(),
                r,
            ),
            (time.hour <= 23 && time.minute <= 59 && time.second <= 59) ==> read_then_maybe_write(
                old(self).transfers(),
                final(self).transfers(),
                Register::SECONDS,
                Some(
                    time_payload(
                        *time,
                        first_new(old(self).transfers(), final(self).transfers()).read_byte(),
                    ),
                ),
                r,
            ),
    {
        if time.minute > 59 || time.second > 59 {
            return Err(Error::InvalidInputData);
        }
        let hour = match get_hours_register_value(Hours::H24(time.hour)) {
            Some(h) => h,
            None => {
                return Err(Error::InvalidInputData);
            },
        };
        let ghost before = self.transfers();
        let current = match self.read_register(Register::SECONDS) {
            Ok(v) => v,
            Err(e) => {
                return Err(e);
            },
        };
        let ghost mid = self.transfers();
        let ch_flag = current & BitFlags::CH;
        let payload: [u8; 4] = [
            Register::SECONDS,
            ch_flag | decimal_to_packed_bcd(time.second),
            decimal_to_packed_bcd(time.minute),
            hour,
        ];
        let r = self.write_bytes(&payload);
        assert(payload@ =~= time_payload(*time, current));
        assert(self.transfers().take(before.len() as int) =~= before);
        assert(first_new(before, self.transfers()) == mid.last());
        r
    }

    /// Read the seconds, 0 to 59 on a running chip.
    pub fn seconds(&mut self) -> (r: Result<u8, Error>)
        ensures
            one_read(old(self).transfers(), final(self).transfers(), Register::SECONDS),
            reports(
                final(self).transfers().last(),
                r,
                bcd_decimal(final(self).transfers().last().read_byte() & !BitFlags::CH),
            ),
    {
        let data = self.read_register(Register::SECONDS)?;
        Ok(packed_bcd_to_decimal(remove_ch_bit(data)))
    }

    /// Read the minutes.
    pub fn minutes(&mut self) -> (r: Result<u8, Error>)
        ensures
            one_read(old(self).transfers(), final(self).transfers(), Register::MINUTES),
            reports(
                final(self).transfers().last(),
                r,
                bcd_decimal(final(self).transfers().last().read_byte()),
            ),
    {
        self.read_register_decimal(Register::MINUTES)
    }

    /// Read the hours, in the mode that the chip is in.
    pub fn hours(&mut self) -> (r: Result<Hours, Error>)
        ensures
            one_read(old(self).transfers(), final(self).transfers(), Register::HOURS),
            reports(
                final(self).transfers().last(),
                r,
                hours_of_byte(final(self).transfers().last().read_byte()),
            ),
    {
        let data = self.read_register(Register::HOURS)?;
        Ok(get_hours_from_register(data))
    }

    /// Read the day of the week; the chip holds it as a plain integer.
    pub fn weekday(&mut self) -> (r: Result<u8, Error>)
        ensures
            one_read(old(self).transfers(), final(self).transfers(), Register::DOW),
            reports(final(self).transfers().last(), r, final(self).transfers().last().read_byte()),
    {
        self.read_register(Register::DOW)
    }

    /// Read the day of the month.
    pub fn day(&mut self) -> (r: Result<u8, Error>)
        ensures
            one_read(old(self).transfers(), final(self).transfers(), Register::DOM),
            reports(
                final(self).transfers().last(),
                r,
                bcd_decimal(final(self).transfers().last().read_byte()),
            ),
    {
        self.read_register_decimal(Register::DOM)
    }

    /// Read the month.
    pub fn month(&mut self) -> (r: Result<u8, Error>)
        ensures
            one_read(old(self).transfers(), final(self).transfers(), Register::MONTH),
            reports(
                final(self).transfers().last(),
                r,
                bcd_decimal(final(self).transfers().last().read_byte()),
            ),
    {
        self.read_register_decimal(Register::MONTH)
    }

    /// Read the year.
    pub fn year(&mut self) -> (r: Result<u16, Error>)
        ensures
            one_read(old(self).transfers(), final(self).transfers(), Register::YEAR),
            reports(
                final(self).transfers().last(),
                r,
                year_of_byte(final(self).transfers().last().read_byte()),
            ),
    {
        let year = self.read_register_decimal(Register::YEAR)?;
        Ok(2000 + year as u16)
    }

    /// Set the seconds, keeping the oscillator-halt bit.
    pub fn set_seconds(&mut self, seconds: u8) -> (r: Result<(), Error>)
        ensures
            !(seconds <= 59) ==> rejected(old(self).transfers(), final(self).transfers(), r),
            seconds <= 59 ==> read_then_maybe_write(
                old(self).transfers(),
                final(self).transfers(),
                Register::SECONDS,
                Some(
                    seq![
                        Register::SECONDS,
                        seconds_byte(
                            first_new(old(self).transfers(), final(self).transfers()).read_byte(),
                            seconds,
                        ),
                    ],
                ),
                r,
            ),
    {
        if seconds > 59 {
            return Err(Error::InvalidInputData);
        }
        let ghost before = self.transfers();
        let data = match self.read_register(Register::SECONDS) {
            Ok(v) => v,
            Err(e) => {
                return Err(e);
            },
        };
        let ghost mid = self.transfers();
        let value = data & BitFlags::CH | decimal_to_packed_bcd(seconds);
        let r = self.write_register(Register::SECONDS, value);
        assert(self.transfers().take(before.len() as int) =~= before);
        assert(first_new(before, self.transfers()) == mid.last());
        r
    }

    /// Set the minutes.
    pub fn set_minutes(&mut self, minutes: u8) -> (r: Result<(), Error>)
        ensures
            !(minutes <= 59) ==> rejected(old(self).transfers(), final(self).transfers(), r),
            (minutes <= 59) ==> one_write(
                old(self).transfers(),
                final(self).transfers(),
                seq![Register::MINUTES, bcd_byte(minutes)],
                r,
            ),
    {
        if minutes > 59 {
            return Err(Error::InvalidInputData);
        }
        self.write_register_decimal(Register::MINUTES, minutes)
    }

    /// Set the hours; the variant of `hours` sets the chip's 12/24-hour mode.
    pub fn set_hours(&mut self, hours: Hours) -> (r: Result<(), Error>)
        ensures
            !hours_valid(hours) ==> rejected(old(self).transfers(), final(self).transfers(), r),
            hours_valid(hours) ==> one_write(
                old(self).transfers(),
                final(self).transfers(),
                seq![Register::HOURS, hours_byte(hours)],
                r,
            ),
    {
        match get_hours_register_value(hours) {
            Some(value) => self.write_register(Register::HOURS, value),
            None => Err(Error::InvalidInputData),
        }
    }

    /// Set the day of the week, 1 to 7; the chip holds it as it is.
    pub fn set_weekday(&mut self, weekday: u8) -> (r: Result<(), Error>)
        ensures
            !(1 <= weekday <= 7) ==> rejected(old(self).transfers(), final(self).transfers(), r),
            (1 <= weekday <= 7) ==> one_write(
                old(self).transfers(),
                final(self).transfers(),
                seq![Register::DOW, weekday],
                r,
            ),
    {
        if weekday < 1 || weekday > 7 {
            return Err(Error::InvalidInputData);
        }
        self.write_register(Register::DOW, weekday)
    }

    /// Set the day of the month, 1 to 31, whatever the month.
    pub fn set_day(&mut self, day: u8) -> (r: Result<(), Error>)
        ensures
            !(1 <= day <= 31) ==> rejected(old(self).transfers(), final(self).transfers(), r),
            (1 <= day <= 31) ==> one_write(
                old(self).transfers(),
                final(self).transfers(),
                seq![Register::DOM, bcd_byte(day)],
                r,
            ),
    {
        if day < 1 || day > 31 {
            return Err(Error::InvalidInputData);
        }
        self.write_register_decimal(Register::DOM, day)
    }

    /// Set the month.
    pub fn set_month(&mut self, month: u8) -> (r: Result<(), Error>)
        ensures
            !(1 <= month <= 12) ==> rejected(old(self).transfers(), final(self).transfers(), r),
            (1 <= month <= 12) ==> one_write(
                old(self).transfers(),
                final(self).transfers(),
                seq![Register::MONTH, bcd_byte(month)],
                r,
            ),
    {
        if month < 1 || month > 12 {
            return Err(Error::InvalidInputData);
        }
        self.write_register_decimal(Register::MONTH, month)
    }

    /// Set the year, 2000 to 2099.
    pub fn set_year(&mut self, year: u16) -> (r: Result<(), Error>)
        ensures
            !(2000 <= year <= 2099) ==> rejected(old(self).transfers(), final(self).transfers(), r),
            (2000 <= year <= 2099) ==> one_write(
                old(self).transfers(),
                final(self).transfers(),
                seq![Register::YEAR, year_byte(year)],
                r,
            ),
    {
        if year < 2000 || year > 2099 {
            return Err(Error::InvalidInputData);
        }
        self.write_register_decimal(Register::YEAR, (year - 2000) as u8)
    }

    fn read_register_decimal(&mut self, register: u8) -> (r: Result<u8, Error>)
        ensures
            one_read(old(self).transfers(), final(self).transfers(), register),
            reports(
                final(self).transfers().last(),
                r,
                bcd_decimal(final(self).transfers().last().read_byte()),
            ),
    {
        let data = self.read_register(register)?;
        Ok(packed_bcd_to_decimal(data))
    }

    fn write_register_decimal(&mut self, register: u8, decimal_number: u8) -> (r: Result<(), Error>)
        ensures
            one_write(
                old(self).transfers(),
                final(self).transfers(),
                seq![register, bcd_byte(decimal_number)],
                r,
            ),
    {
        self.write_register(register, decimal_to_packed_bcd(decimal_number))
    }
}

} // verus!
