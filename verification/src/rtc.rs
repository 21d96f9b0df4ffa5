//! MC146818-style CMOS real-time clock: calendar conversion and register file.
use vstd::prelude::*;

verus! {

/// I/O port of the RTC index register.
pub const RTC_INDEX_PORT: u16 = 0x70;

pub const RTC_REG_SECONDS: u8 = 0x00;
pub const RTC_REG_MINUTES: u8 = 0x02;
pub const RTC_REG_HOURS: u8 = 0x04;
pub const RTC_REG_WEEKDAY: u8 = 0x06;
pub const RTC_REG_DAY: u8 = 0x07;
pub const RTC_REG_MONTH: u8 = 0x08;
pub const RTC_REG_YEAR: u8 = 0x09;
pub const RTC_REG_STATUS_A: u8 = 0x0a;
pub const RTC_REG_STATUS_B: u8 = 0x0b;
pub const RTC_REG_STATUS_C: u8 = 0x0c;
pub const RTC_REG_STATUS_D: u8 = 0x0d;
pub const RTC_REG_CENTURY: u8 = 0x32;

/// 32.768 kHz time base, 1024 Hz rate.
pub const RTC_STATUS_A_VALUE: u8 = 0x26;
/// 24-hour mode, BCD format, no interrupts.
pub const RTC_STATUS_B_VALUE: u8 = 0x02;
/// No interrupt flags set.
pub const RTC_STATUS_C_VALUE: u8 = 0x00;
/// RTC valid, battery good.
pub const RTC_STATUS_D_VALUE: u8 = 0x80;

/// Gregorian leap year rule.
pub open spec fn leap(y: int) -> bool {
    (y % 4 == 0 && y % 100 != 0) || y % 400 == 0
}

/// Days in year `y`.
pub open spec fn year_len(y: int) -> int {
    if leap(y) { 366 } else { 365 }
}

/// Number of leap years in `1..=y` for `y >= 0`.
pub open spec fn leaps_through(y: int) -> int {
    y / 4 - y / 100 + y / 400
}

/// Days from 1970-01-01 to January 1st of year `y` (`y >= 1970`).
pub open spec fn days_before_year(y: int) -> int {
    (y - 1970) * 365 + leaps_through(y - 1) - leaps_through(1969)
}

/// Days in month `m` (1 to 12) of year `y`.
pub open spec fn month_len(y: int, m: int) -> int {
    if m == 2 {
        if leap(y) { 29 } else { 28 }
    } else if m == 4 || m == 6 || m == 9 || m == 11 {
        30
    } else {
        31
    }
}

/// Days from January 1st of year `y` to the first of month `m`.
pub open spec fn days_before_month(y: int, m: int) -> int
    decreases m,
{
    if m <= 1 {
        0
    } else {
        days_before_month(y, m - 1) + month_len(y, m - 1)
    }
}

/// `year`-`month`-`day` `hour`:`min`:`sec` (UTC) on weekday `weekday` (1 = Sunday ... 7 =
/// Saturday) is the civil date and time of Unix timestamp `ts`.
pub open spec fn is_datetime_of(ts: int, year: int, month: int, day: int, hour: int, min: int, sec: int, weekday: int) -> bool {
    &&& sec == ts % 60
    &&& min == (ts / 60) % 60
    &&& hour == (ts / 3600) % 24
    &&& weekday == (ts / 86400 + 4) % 7 + 1
    &&& year >= 1970
    &&& 1 <= month <= 12
    &&& 1 <= day <= month_len(year, month)
    &&& days_before_year(year) + days_before_month(year, month) + day - 1 == ts / 86400
}

proof fn lemma_days_before_year_step(y: int)
    requires
        y >= 1970,
    ensures
        days_before_year(y + 1) == days_before_year(y) + year_len(y),
{
    assert(leaps_through(y) - leaps_through(y - 1) == if leap(y) { 1int } else { 0int });
}

proof fn lemma_year_total(y: int)
    ensures
        days_before_month(y, 13) == year_len(y),
{
    reveal_with_fuel(days_before_month, 13);
}

impl RtcDevice {
    /// Gregorian leap year rule.
    pub fn is_leap_year(year: i32) -> (r: bool)
        ensures
            r == leap(year as int),
    {
        (year % 4 == 0 && year % 100 != 0) || (year % 400 == 0)
    }

    /// Binary-coded decimal of `val`: tens in the high nibble, ones in the low nibble.
    pub fn to_bcd(val: u8) -> (r: u8)
        ensures
            r == ((((val / 10) as u8) << 4u8) | ((val % 10) as u8)) as u8,
            val < 100 ==> r == (val / 10) * 16 + val % 10,
    {
        let r = ((val / 10) << 4) | (val % 10);
        assert(val < 100 ==> ((((val / 10) as u8) << 4u8) | ((val % 10) as u8)) == (val / 10) * 16 + val % 10) by (bit_vector);
        r
    }

    /// Converts a Unix timestamp into (year, month, day, hour, minute, second, weekday).
    /// Years are counted one by one from 1970, so the timestamp must fall before the year
    /// after `i32::MAX`.
    pub fn unix_to_datetime(timestamp: u64) -> (r: (u32, u8, u8, u8, u8, u8, u8))
        requires
            (timestamp / 86400) < days_before_year(i32::MAX + 1),
        ensures
            is_datetime_of(timestamp as int, r.0 as int, r.1 as int, r.2 as int, r.3 as int, r.4 as int, r.5 as int, r.6 as int),
    {
        let sec = (timestamp % 60) as u8;
        let min = ((timestamp / 60) % 60) as u8;
        let hour = ((timestamp / 3600) % 24) as u8;
        let total: u64 = timestamp / 86400;
        let mut days: u64 = total;
        let weekday = ((days + 4) % 7 + 1) as u8;

        let mut year: i32 = 1970;
        loop
            invariant
                1970 <= year,
                total == timestamp / 86400,
                total < days_before_year(i32::MAX + 1),
                days_before_year(year as int) + days == total,
            ensures
                1970 <= year,
                days < year_len(year as int),
                days_before_year(year as int) + days == total,
            decreases total - days_before_year(year as int),
        {
            let days_in_year: u64 = if RtcDevice::is_leap_year(year) { 366 } else { 365 };
            if days < days_in_year {
                break;
            }
            proof {
                lemma_days_before_year_step(year as int);
                if year == i32::MAX {
                    assert(days_before_year(year + 1) <= total);
                }
            }
            days = days - days_in_year;
            year = year + 1;
        }
        let is_leap = RtcDevice::is_leap_year(year);
        proof {
            lemma_year_total(year as int);
        }
        let mut month: u8 = 1;
        loop
            invariant
                1 <= month <= 12,
                is_leap == leap(year as int),
                days < year_len(year as int) - days_before_month(year as int, month as int),
                days_before_month(year as int, 13) == year_len(year as int),
                days_before_year(year as int) + days_before_month(year as int, month as int) + days
                    == total,
            ensures
                1 <= month <= 12,
                days < month_len(year as int, month as int),
                days_before_year(year as int) + days_before_month(year as int, month as int) + days
                    == total,
            decreases 12 - month,
        {
            let d: u64 = if month == 2 {
                if is_leap { 29 } else { 28 }
            } else if month == 4 || month == 6 || month == 9 || month == 11 {
                30
            } else {
                31
            };
            if days < d {
                break;
            }
            proof {
                assert(days_before_month(year as int, month + 1) == days_before_month(year as int, month as int) + month_len(year as int, month as int));
            }
            days = days - d;
            month = month + 1;
        }
        let day = (days + 1) as u8;
        (year as u32, month, day, hour, min, sec, weekday)
    }
}

/// The value the clock shows in register `index` at Unix time `now`.
pub open spec fn register_at(index: u8, now: u64, d: (u32, u8, u8, u8, u8, u8, u8)) -> u8 {
    if index == RTC_REG_SECONDS {
        bcd(d.5)
    } else if index == RTC_REG_MINUTES {
        bcd(d.4)
    } else if index == RTC_REG_HOURS {
        bcd(d.3)
    } else if index == RTC_REG_WEEKDAY {
        d.6
    } else if index == RTC_REG_DAY {
        bcd(d.2)
    } else if index == RTC_REG_MONTH {
        bcd(d.1)
    } else if index == RTC_REG_YEAR {
        bcd((d.0 % 100) as u8)
    } else if index == RTC_REG_STATUS_A {
        RTC_STATUS_A_VALUE
    } else if index == RTC_REG_STATUS_B {
        RTC_STATUS_B_VALUE
    } else if index == RTC_REG_STATUS_C {
        RTC_STATUS_C_VALUE
    } else if index == RTC_REG_STATUS_D {
        RTC_STATUS_D_VALUE
    } else if index == RTC_REG_CENTURY {
        bcd((d.0 / 100) as u8)
    } else {
        0
    }
}

/// What `to_bcd` computes.
pub open spec fn bcd(val: u8) -> u8 {
    ((((val / 10) as u8) << 4u8) | ((val % 10) as u8)) as u8
}

proof fn lemma_bcd_digits(v: u8)
    requires
        v < 100,
    ensures
        bcd(v) == (v / 10) * 16 + v % 10,
{
    assert(((((v / 10) as u8) << 4u8) | ((v % 10) as u8)) as u8 == (v / 10) * 16 + v % 10) by (bit_vector)
        requires
            v < 100;
}

/// At every time, the clock registers show that time's civil date and time, as two decimal
/// digits per byte (tens in the high nibble): seconds at 0x00, minutes at 0x02, hours at
/// 0x04, the weekday (1 = Sunday) at 0x06, the day of the month at 0x07, the month at 0x08
/// and the year within its century at 0x09.
pub proof fn law_clock_registers_show_the_date(
    now: u64,
    year: u32,
    month: u8,
    day: u8,
    hour: u8,
    min: u8,
    sec: u8,
    weekday: u8,
)
    requires
        is_datetime_of(now as int, year as int, month as int, day as int, hour as int, min as int, sec as int, weekday as int),
    ensures
        ({
            let d = (year, month, day, hour, min, sec, weekday);
            &&& register_at(0x00, now, d) == (sec / 10) * 16 + sec % 10
            &&& register_at(0x02, now, d) == (min / 10) * 16 + min % 10
            &&& register_at(0x04, now, d) == (hour / 10) * 16 + hour % 10
            &&& register_at(0x06, now, d) == weekday
            &&& register_at(0x07, now, d) == (day / 10) * 16 + day % 10
            &&& register_at(0x08, now, d) == (month / 10) * 16 + month % 10
            &&& register_at(0x09, now, d) == ((year % 100) / 10) * 16 + (year % 100) % 10
        }),
{
    assert(day <= 31) by {
        assert(month_len(year as int, month as int) <= 31);
    }
    lemma_bcd_digits(sec);
    lemma_bcd_digits(min);
    lemma_bcd_digits(hour);
    lemma_bcd_digits(day);
    lemma_bcd_digits(month);
    lemma_bcd_digits((year % 100) as u8);
}

/// Whether register `index` shows a fixed value, independent of the time.
pub open spec fn is_fixed_register(index: u8) -> bool {
    !(index == RTC_REG_SECONDS || index == RTC_REG_MINUTES || index == RTC_REG_HOURS
        || index == RTC_REG_WEEKDAY || index == RTC_REG_DAY || index == RTC_REG_MONTH
        || index == RTC_REG_YEAR || index == RTC_REG_CENTURY)
}

/// The value of register `index` at Unix time `now`.
pub fn register_value(index: u8, now: u64) -> (r: u8)
    requires
        (now / 86400) < days_before_year(i32::MAX + 1),
    ensures
        exists|d: (u32, u8, u8, u8, u8, u8, u8)|
            is_datetime_of(now as int, d.0 as int, d.1 as int, d.2 as int, d.3 as int, d.4 as int, d.5 as int, d.6 as int)
            && r == register_at(index, now, d),
{
    let d = RtcDevice::unix_to_datetime(now);
    let (year, month, day, hour, min, sec, weekday) = d;
    let r = if index == RTC_REG_SECONDS {
        RtcDevice::to_bcd(sec)
    } else if index == RTC_REG_MINUTES {
        RtcDevice::to_bcd(min)
    } else if index == RTC_REG_HOURS {
        RtcDevice::to_bcd(hour)
    } else if index == RTC_REG_WEEKDAY {
        weekday
    } else if index == RTC_REG_DAY {
        RtcDevice::to_bcd(day)
    } else if index == RTC_REG_MONTH {
        RtcDevice::to_bcd(month)
    } else if index == RTC_REG_YEAR {
        RtcDevice::to_bcd((year % 100) as u8)
    } else if index == RTC_REG_STATUS_A {
        RTC_STATUS_A_VALUE
    } else if index == RTC_REG_STATUS_B {
        RTC_STATUS_B_VALUE
    } else if index == RTC_REG_STATUS_C {
        RTC_STATUS_C_VALUE
    } else if index == RTC_REG_STATUS_D {
        RTC_STATUS_D_VALUE
    } else if index == RTC_REG_CENTURY {
        RtcDevice::to_bcd((year / 100) as u8)
    } else {
        0
    };
    assert(r == register_at(index, now, d));
    r
}

/// Seconds since the Unix epoch on the host clock (`SystemTime::now`), 0 before the epoch.
#[verifier::external_body]
fn unix_now() -> (r: u64) {
    std::time::SystemTime::now().duration_since(std::time::UNIX_EPOCH).unwrap_or_default().as_secs()
}

/// The CMOS clock device: an index register selecting what the data port reads.
pub struct RtcDevice {
    index: u8,
}

impl RtcDevice {
    pub fn new() -> (r: RtcDevice)
        ensures
            r.selected() == 0,
    {
        RtcDevice { index: 0 }
    }

    /// The register index last written to the index port.
    pub closed spec fn selected(&self) -> u8 {
        self.index
    }

    /// Reads register `index` at the host's current time. A host clock so far ahead that the
    /// year would pass `i32::MAX` (day 784351576777 after the epoch or later) is read as the
    /// epoch.
    pub fn read_register(&self, index: u8) -> (r: u8)
        ensures
            is_fixed_register(index) ==> r == register_at(index, 0, (0, 0, 0, 0, 0, 0, 0)),
            exists|now: u64, d: (u32, u8, u8, u8, u8, u8, u8)|
                is_datetime_of(now as int, d.0 as int, d.1 as int, d.2 as int, d.3 as int, d.4 as int, d.5 as int, d.6 as int)
                && r == register_at(index, now, d),
    {
        let mut now = unix_now();
        proof {
            assert(days_before_year(i32::MAX + 1) == 784351576777);
        }
        if now / 86400 >= 784351576777u64 {
            now = 0;
        }
        register_value(index, now)
    }

    /// A read from the port pair: offset 1 reads the selected register (bit 7 ignored),
    /// offset 0 reads as 0xff. An empty buffer is left as it is.
    pub fn pio_read(&mut self, offset: u16, data: &mut [u8])
        ensures
            final(data)@.len() == old(data)@.len(),
            old(data)@.len() > 0 && offset != 1 ==> final(data)@ == old(data)@.update(0, 0xffu8),
            old(data)@.len() > 0 && offset == 1 ==> final(data)@.subrange(1, old(data)@.len() as int)
                == old(data)@.subrange(1, old(data)@.len() as int),
            old(data)@.len() > 0 && offset == 1 && is_fixed_register((old(self).selected() & 0x7f) as u8)
                ==> final(data)@[0] == register_at((old(self).selected() & 0x7f) as u8, 0, (0, 0, 0, 0, 0, 0, 0)),
            old(data)@.len() > 0 && offset == 1 ==> exists|now: u64, d: (u32, u8, u8, u8, u8, u8, u8)|
                is_datetime_of(now as int, d.0 as int, d.1 as int, d.2 as int, d.3 as int, d.4 as int, d.5 as int, d.6 as int)
                && final(data)@[0] == register_at((old(self).selected() & 0x7f) as u8, now, d),
            old(data)@.len() == 0 ==> final(data)@ == old(data)@,
            final(self).selected() == old(self).selected(),
    {
        if data.len() > 0 {
            let v = if offset == 1 {
                let index = self.index & 0x7f;
                self.read_register(index)
            } else {
                0xff
            };
            data[0] = v;
        }
    }

    /// A write to the port pair: offset 0 selects the register named by the first byte.
    pub fn pio_write(&mut self, offset: u16, data: &[u8])
        ensures
            offset == 0 && data@.len() > 0 ==> final(self).selected() == data@[0],
            !(offset == 0 && data@.len() > 0) ==> final(self).selected() == old(self).selected(),
    {
        if offset == 0 && data.len() > 0 {
            self.index = data[0];
        }
    }
}

} // verus!
