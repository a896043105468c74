//! BM8563 real-time-clock register codec.
//!
//! The clock chip stores each time and date field as packed binary-coded
//! decimal (BCD): the high nibble holds the tens digit, the low nibble the
//! units. This module converts between plain byte values and BCD, and
//! between `Time`/`Date` values and the register frames the chip expects.
//! The serial-bus transactions that move those frames belong to the caller.

use vstd::prelude::*;

verus! {

/// Default serial-bus address of the clock chip.
pub const RTC8563_DEFAULT_I2C_ADDRESS: u8 = 0x51;

/// A packed binary-coded-decimal byte.
pub type Bcd = u8;

/// Value of a packed BCD byte: ten times the high nibble plus the low nibble.
pub open spec fn bcd_value(bcd: u8) -> u8 {
    (10 * (bcd / 16) + bcd % 16) as u8
}

/// Packed BCD encoding of a byte: the tens count in the high nibble, the
/// remainder in the low nibble. A value of 100 or more overflows the tens
/// nibble, which wraps modulo 16.
pub open spec fn bcd_of_value(value: u8) -> u8 {
    (16 * ((value / 10) % 16) + value % 10) as u8
}

/// Convert a packed BCD byte to its plain value.
///
/// The caller masks register padding bits away first; no range check is made
/// here, so a nibble above 9 simply contributes more than 9.
pub fn bcd2byte(bdc: Bcd) -> (r: u8)
    ensures
        r == bcd_value(bdc),
{
    let dec: u8 = (bdc & 0xF0) >> 4;
    let unit: u8 = bdc & 0x0F;
    proof {
        assert((bdc & 0xF0) >> 4 == bdc / 16 && bdc & 0x0F == bdc % 16) by (bit_vector);
    }

    (10 * dec) + unit
}

/// Convert a plain byte to packed BCD by counting tens.
///
/// Valid for 0 through 99; larger values wrap the tens nibble modulo 16,
/// exactly as the subtraction loop leaves them.
pub fn byte2bcd(value: u8) -> (r: Bcd)
    ensures
        r == bcd_of_value(value),
{
    let mut bcd_high: u8 = 0;
    let mut bcd_low: u8 = value;

    while bcd_low >= 10
        invariant
            10 * bcd_high + bcd_low == value,
        decreases bcd_low,
    {
        bcd_high += 1;
        bcd_low -= 10;
    }
    assert(bcd_high == value / 10 && bcd_low == value % 10) by (nonlinear_arith)
        requires
            10 * bcd_high + bcd_low == value,
            bcd_low < 10,
            bcd_high >= 0,
    ;
    proof {
        let h = bcd_high;
        assert((h << 4) == 16 * ((h as int % 16)) && (h << 4) as int + 10 <= 256) by (bit_vector);
    }

    (bcd_high << 4) + bcd_low
}

/// Round trip of the BCD codec: every value below 100 survives encoding
/// and decoding unchanged.
pub proof fn lemma_bcd_round_trip(v: u8)
    requires
        v < 100,
    ensures
        bcd_value(bcd_of_value(v)) == v,
{
    let e = bcd_of_value(v);
    assert(v / 10 < 10 && v % 10 < 10 && 10 * (v / 10) + v % 10 == v) by (nonlinear_arith)
        requires
            v < 100,
    ;
    assert(e == 16 * (v / 10) + v % 10);
    assert(e / 16 == v / 10 && e % 16 == v % 10) by (nonlinear_arith)
        requires
            e == 16 * (v / 10) + v % 10,
            v % 10 < 10,
    ;
}

/// Wall-clock time as the chip reports it.
#[derive(Debug, Clone, Copy, PartialEq, Eq, Structural)]
pub struct Time {
    pub hours: u8,
    pub minutes: u8,
    pub seconds: u8,
}

impl Default for Time {
    fn default() -> (r: Self)
        ensures
            r == (Time { hours: 0, minutes: 0, seconds: 0 }),
    {
        Time { hours: 0, minutes: 0, seconds: 0 }
    }
}

/// Calendar date as the chip reports it. The chip stores a two-digit year
/// and a century flag; `year` carries the reconstructed full year.
#[derive(Debug, Clone, Copy, PartialEq, Eq, Structural)]
pub struct Date {
    pub week_day: u8,
    pub month: u8,
    pub day: u8,
    pub year: i16,
}

impl Default for Date {
    fn default() -> (r: Self)
        ensures
            r == (Date { week_day: 0, month: 0, day: 0, year: 0 }),
    {
        Date { week_day: 0, month: 0, day: 0, year: 0 }
    }
}

/// The clock chip, identified by its serial-bus address.
pub struct Rtc8563 {
    pub address: u8,
}

/// First register of the time block: seconds, then minutes, then hours.
pub const SECONDS_REG: u8 = 0x02;

/// First register of the date block: day, weekday, month with century flag,
/// then the two-digit year.
pub const DAYS_REG: u8 = 0x05;

/// The `Time` held in the three registers starting at the seconds register.
/// Padding bits above each field are masked away before BCD decoding.
pub open spec fn time_decoded(b0: u8, b1: u8, b2: u8) -> Time {
    Time {
        hours: bcd_value(b2 & 0x3F),
        minutes: bcd_value(b1 & 0x7F),
        seconds: bcd_value(b0 & 0x7F),
    }
}

/// The frame that writes a `Time`: the seconds register address followed by
/// the BCD-encoded seconds, minutes and hours.
pub open spec fn time_regs(t: Time) -> Seq<u8> {
    seq![
        SECONDS_REG,
        bcd_of_value(t.seconds),
        bcd_of_value(t.minutes),
        bcd_of_value(t.hours),
    ]
}

/// The `Date` held in the four registers starting at the days register.
/// The century flag (bit 7 of the month register) selects the 1900s or the
/// 2000s for the two-digit year.
pub open spec fn date_decoded(b0: u8, b1: u8, b2: u8, b3: u8) -> Date {
    Date {
        day: bcd_value(b0 & 0x3f),
        week_day: bcd_value(b1 & 0x0f),
        month: bcd_value(b2 & 0x1f),
        year: if b2 & 0x80 == 0x80 {
            (1900 + bcd_value(b3)) as i16
        } else {
            (2000 + bcd_value(b3)) as i16
        },
    }
}

/// The frame that writes a `Date`: the days register address, then the
/// BCD-encoded day, weekday and month (each masked to its register width,
/// with the century flag set on the month byte for years before 2000), and
/// the BCD-encoded year modulo 100.
pub open spec fn date_regs(d: Date) -> Seq<u8> {
    seq![
        DAYS_REG,
        bcd_of_value(d.day) & 0x3f,
        bcd_of_value(d.week_day) & 0x0f,
        if d.year < 2000 {
            (bcd_of_value(d.month) & 0x1f) | 0x80
        } else {
            bcd_of_value(d.month) & 0x1f
        },
        bcd_of_value((d.year as int % 100) as u8),
    ]
}

impl Rtc8563 {
    pub fn new(address: u8) -> (r: Self)
        ensures
            r.address == address,
    {
        Self { address }
    }

    /// The frame that initializes the chip: three zero bytes, clearing the
    /// two control/status registers behind register address zero.
    pub fn init_regs(&self) -> (r: [u8; 3])
        ensures
            r@ == seq![0u8, 0u8, 0u8],
    {
        let buffer: [u8; 3] = [0, 0, 0];
        proof {
            assert(buffer@ =~= seq![0u8, 0u8, 0u8]);
        }
        buffer
    }

    /// Decode the three raw register bytes read from the seconds register
    /// onward into a `Time`.
    pub fn time_from_regs(&self, b0: u8, b1: u8, b2: u8) -> (r: Time)
        ensures
            r == time_decoded(b0, b1, b2),
    {
        Time {
            hours: bcd2byte(b2 & 0x3F),
            minutes: bcd2byte(b1 & 0x7F),
            seconds: bcd2byte(b0 & 0x7F),
        }
    }

    /// Encode a `Time` into the frame to write at the seconds register.
    pub fn time_to_regs(&self, time: &Time) -> (r: [u8; 4])
        ensures
            r@ == time_regs(*time),
    {
        let buffer: [u8; 4] = [
            SECONDS_REG,
            byte2bcd(time.seconds),
            byte2bcd(time.minutes),
            byte2bcd(time.hours),
        ];
        proof {
            assert(buffer@ =~= time_regs(*time));
        }
        buffer
    }

    /// Decode the four raw register bytes read from the days register onward
    /// into a `Date`.
    pub fn date_from_regs(&self, b0: u8, b1: u8, b2: u8, b3: u8) -> (r: Date)
        ensures
            r == date_decoded(b0, b1, b2, b3),
    {
        Date {
            day: bcd2byte(b0 & 0x3f),
            week_day: bcd2byte(b1 & 0x0f),
            month: bcd2byte(b2 & 0x1f),
            year: if b2 & 0x80 == 0x80 {
                1900 + bcd2byte(b3) as i16
            } else {
                2000 + bcd2byte(b3) as i16
            },
        }
    }

    /// Encode a `Date` into the frame to write at the days register.
    ///
    /// The chip stores only a two-digit year plus a century flag, so a
    /// negative year has no register form; years from 0 on are accepted.
    pub fn date_to_regs(&self, date: &Date) -> (r: [u8; 5])
        requires
            0 <= date.year,
        ensures
            r@ == date_regs(*date),
    {
        let mut buffer: [u8; 5] = [DAYS_REG, 0, 0, 0, 0];
        buffer[1] = byte2bcd(date.day) & 0x3f;
        buffer[2] = byte2bcd(date.week_day) & 0x0f;
        buffer[3] = byte2bcd(date.month) & 0x1f;

        if date.year < 2000 {
            buffer[3] |= 0x80;
        }
        let yy = (date.year as u16 % 100) as u8;
        buffer[4] = byte2bcd(yy);
        proof {
            assert(date.year as u16 == date.year as int);
            assert(buffer@ =~= date_regs(*date));
        }
        buffer
    }
}

/// Round trip of the time codec: a `Time` whose fields are in range encodes
/// into register bytes that decode back to the same value.
pub proof fn lemma_time_round_trip(t: Time)
    requires
        t.hours <= 23,
        t.minutes <= 59,
        t.seconds <= 59,
    ensures
        time_decoded(time_regs(t)[1], time_regs(t)[2], time_regs(t)[3]) == t,
{
    let es = bcd_of_value(t.seconds);
    let em = bcd_of_value(t.minutes);
    let eh = bcd_of_value(t.hours);
    lemma_bcd_encode_bound(t.seconds);
    lemma_bcd_encode_bound(t.minutes);
    lemma_bcd_encode_bound(t.hours);
    assert(es & 0x7F == es && em & 0x7F == em) by (bit_vector)
        requires
            es < 0x60,
            em < 0x60,
    ;
    assert(eh & 0x3F == eh) by (bit_vector)
        requires
            eh < 0x40,
    ;
    lemma_bcd_round_trip(t.seconds);
    lemma_bcd_round_trip(t.minutes);
    lemma_bcd_round_trip(t.hours);
}

/// Round trip of the date codec: a `Date` whose fields are in range and
/// whose year falls in the two representable centuries encodes into register
/// bytes that decode back to the same value.
pub proof fn lemma_date_round_trip(d: Date)
    requires
        1 <= d.day <= 31,
        d.week_day <= 6,
        1 <= d.month <= 12,
        1900 <= d.year < 2100,
    ensures
        date_decoded(date_regs(d)[1], date_regs(d)[2], date_regs(d)[3], date_regs(d)[4]) == d,
{
    let ed = bcd_of_value(d.day);
    let ew = bcd_of_value(d.week_day);
    let em = bcd_of_value(d.month);
    lemma_bcd_encode_bound(d.day);
    lemma_bcd_encode_bound(d.week_day);
    lemma_bcd_encode_bound(d.month);
    assert(ed & 0x3f == ed) by (bit_vector)
        requires
            ed < 0x40,
    ;
    assert(ew & 0x0f == ew) by (bit_vector)
        requires
            ew < 0x10,
    ;
    assert((em | 0x80) & 0x1f == em && (em | 0x80) & 0x80 == 0x80 && em & 0x1f == em && em
        & 0x80 != 0x80) by (bit_vector)
        requires
            em < 0x20,
    ;
    lemma_bcd_round_trip(d.day);
    lemma_bcd_round_trip(d.week_day);
    lemma_bcd_round_trip(d.month);
    let yy = d.year as int % 100;
    if d.year < 2000 {
        vstd::arithmetic::div_mod::lemma_fundamental_div_mod_converse(
            d.year as int,
            100,
            19,
            d.year - 1900,
        );
        assert(yy == d.year - 1900);
    } else {
        vstd::arithmetic::div_mod::lemma_fundamental_div_mod_converse(
            d.year as int,
            100,
            20,
            d.year - 2000,
        );
        assert(yy == d.year - 2000);
    }
    lemma_bcd_round_trip((yy) as u8);
}

/// The BCD encoding of a value below 60 stays below 0x60, and of a value
/// below 40 below 0x40: each digit lands in its own nibble.
proof fn lemma_bcd_encode_bound(v: u8)
    requires
        v < 100,
    ensures
        bcd_of_value(v) == 16 * (v / 10) + v % 10,
        v < 40 ==> bcd_of_value(v) < 0x40,
        v < 60 ==> bcd_of_value(v) < 0x60,
        bcd_of_value(v) < 0xA0,
{
    assert(v / 10 < 10 && v % 10 < 10 && (v < 40 ==> v / 10 < 4) && (v < 60 ==> v / 10 < 6))
        by (nonlinear_arith)
        requires
            v < 100,
    ;
}

} // verus!
