use m5dial::rtc8563::{bcd2byte, byte2bcd, Date, Rtc8563, Time};

#[test]
fn bcd_round_trip_all_two_digit_values() {
    for v in 0..100u8 {
        assert_eq!(bcd2byte(byte2bcd(v)), v);
    }
}

#[test]
fn bcd_encode_examples() {
    assert_eq!(byte2bcd(0), 0x00);
    assert_eq!(byte2bcd(9), 0x09);
    assert_eq!(byte2bcd(10), 0x10);
    assert_eq!(byte2bcd(45), 0x45);
    assert_eq!(byte2bcd(99), 0x99);
}

#[test]
fn bcd_decode_examples() {
    assert_eq!(bcd2byte(0x00), 0);
    assert_eq!(bcd2byte(0x59), 59);
    assert_eq!(bcd2byte(0x23), 23);
}

#[test]
fn bcd_encode_wraps_tens_nibble_above_99() {
    // 255 has 25 tens; the tens nibble keeps 25 mod 16 = 9.
    assert_eq!(byte2bcd(255), 0x95);
    // 100 has 10 tens; the tens nibble keeps 10 mod 16 = 10.
    assert_eq!(byte2bcd(100), 0xA0);
}

#[test]
fn time_frame_layout() {
    let rtc = Rtc8563::new(0x51);
    let t = Time {
        hours: 8,
        minutes: 30,
        seconds: 45,
    };
    let frame = rtc.time_to_regs(&t);
    assert_eq!(frame, [0x02, 0x45, 0x30, 0x08]);
}

#[test]
fn time_round_trip_through_registers() {
    let rtc = Rtc8563::new(0x51);
    let t = Time {
        hours: 23,
        minutes: 59,
        seconds: 59,
    };
    let frame = rtc.time_to_regs(&t);
    let back = rtc.time_from_regs(frame[1], frame[2], frame[3]);
    assert_eq!(back, t);
}

#[test]
fn time_decode_masks_padding_bits() {
    let rtc = Rtc8563::new(0x51);
    // The voltage-low flag (bit 7 of seconds) and other padding must not
    // leak into the decoded fields.
    let t = rtc.time_from_regs(0xC5, 0xD0, 0xC8);
    assert_eq!(t.seconds, 45);
    assert_eq!(t.minutes, 50);
    assert_eq!(t.hours, 8);
}

#[test]
fn date_frame_layout_with_century_flag() {
    let rtc = Rtc8563::new(0x51);
    let d = Date {
        week_day: 3,
        month: 7,
        day: 15,
        year: 1999,
    };
    let frame = rtc.date_to_regs(&d);
    assert_eq!(frame, [0x05, 0x15, 0x03, 0x87, 0x99]);
}

#[test]
fn date_frame_layout_without_century_flag() {
    let rtc = Rtc8563::new(0x51);
    let d = Date {
        week_day: 0,
        month: 12,
        day: 31,
        year: 2024,
    };
    let frame = rtc.date_to_regs(&d);
    assert_eq!(frame, [0x05, 0x31, 0x00, 0x12, 0x24]);
}

#[test]
fn date_round_trip_both_centuries() {
    let rtc = Rtc8563::new(0x51);
    for year in [1900i16, 1999, 2000, 2099] {
        let d = Date {
            week_day: 6,
            month: 2,
            day: 28,
            year,
        };
        let frame = rtc.date_to_regs(&d);
        let back = rtc.date_from_regs(frame[1], frame[2], frame[3], frame[4]);
        assert_eq!(back, d);
    }
}

#[test]
fn init_frame_clears_control_registers() {
    let rtc = Rtc8563::new(0x51);
    assert_eq!(rtc.init_regs(), [0, 0, 0]);
}

#[test]
fn default_time_and_date_are_zeroed() {
    let t = Time::default();
    assert_eq!((t.hours, t.minutes, t.seconds), (0, 0, 0));
    let d = Date::default();
    assert_eq!((d.week_day, d.month, d.day, d.year), (0, 0, 0, 0));
}
