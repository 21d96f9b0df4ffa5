use capsa::rtc::{
    RtcDevice, RTC_REG_STATUS_A, RTC_REG_STATUS_B, RTC_REG_STATUS_C, RTC_REG_STATUS_D,
    RTC_STATUS_A_VALUE, RTC_STATUS_B_VALUE, RTC_STATUS_C_VALUE, RTC_STATUS_D_VALUE,
};

#[test]
fn test_unix_to_datetime_epoch() {
    let (year, month, day, hour, min, sec, weekday) = RtcDevice::unix_to_datetime(0);
    assert_eq!(year, 1970);
    assert_eq!(month, 1);
    assert_eq!(day, 1);
    assert_eq!(hour, 0);
    assert_eq!(min, 0);
    assert_eq!(sec, 0);
    assert_eq!(weekday, 5);
}

#[test]
fn test_unix_to_datetime_known_date() {
    let timestamp = 1709209845;
    let (year, month, day, hour, min, sec, _) = RtcDevice::unix_to_datetime(timestamp);
    assert_eq!(year, 2024);
    assert_eq!(month, 2);
    assert_eq!(day, 29);
    assert_eq!(hour, 12);
    assert_eq!(min, 30);
    assert_eq!(sec, 45);
}

#[test]
fn test_unix_to_datetime_end_of_year() {
    let timestamp = 1704067199;
    let (year, month, day, hour, min, sec, _) = RtcDevice::unix_to_datetime(timestamp);
    assert_eq!(year, 2023);
    assert_eq!(month, 12);
    assert_eq!(day, 31);
    assert_eq!(hour, 23);
    assert_eq!(min, 59);
    assert_eq!(sec, 59);
}

#[test]
fn test_unix_to_datetime_start_of_year() {
    let timestamp = 1704067200;
    let (year, month, day, hour, min, sec, _) = RtcDevice::unix_to_datetime(timestamp);
    assert_eq!(year, 2024);
    assert_eq!(month, 1);
    assert_eq!(day, 1);
    assert_eq!(hour, 0);
    assert_eq!(min, 0);
    assert_eq!(sec, 0);
}

#[test]
fn test_is_leap_year() {
    assert!(!RtcDevice::is_leap_year(1900));
    assert!(RtcDevice::is_leap_year(2000));
    assert!(RtcDevice::is_leap_year(2024));
    assert!(!RtcDevice::is_leap_year(2023));
    assert!(!RtcDevice::is_leap_year(2100));
}

#[test]
fn test_to_bcd() {
    assert_eq!(RtcDevice::to_bcd(0), 0x00);
    assert_eq!(RtcDevice::to_bcd(9), 0x09);
    assert_eq!(RtcDevice::to_bcd(10), 0x10);
    assert_eq!(RtcDevice::to_bcd(25), 0x25);
    assert_eq!(RtcDevice::to_bcd(59), 0x59);
    assert_eq!(RtcDevice::to_bcd(99), 0x99);
}

#[test]
fn test_rtc_register_read() {
    let rtc = RtcDevice::new();

    assert_eq!(rtc.read_register(RTC_REG_STATUS_A), RTC_STATUS_A_VALUE);
    assert_eq!(rtc.read_register(RTC_REG_STATUS_B), RTC_STATUS_B_VALUE);
    assert_eq!(rtc.read_register(RTC_REG_STATUS_C), RTC_STATUS_C_VALUE);
    assert_eq!(rtc.read_register(RTC_REG_STATUS_D), RTC_STATUS_D_VALUE);

    assert_eq!(rtc.read_register(0xFF), 0);
}

#[test]
fn test_weekday_calculation() {
    let (_, _, _, _, _, _, weekday) = RtcDevice::unix_to_datetime(0);
    assert_eq!(weekday, 5);

    let (_, _, _, _, _, _, weekday) = RtcDevice::unix_to_datetime(1704585600);
    assert_eq!(weekday, 1);

    let (_, _, _, _, _, _, weekday) = RtcDevice::unix_to_datetime(1705104000);
    assert_eq!(weekday, 7);
}

#[test]
fn ports_select_and_read_fixed_registers() {
    let mut rtc = RtcDevice::new();
    rtc.pio_write(0, &[RTC_REG_STATUS_B | 0x80]);
    let mut data = [0u8; 1];
    rtc.pio_read(1, &mut data);
    assert_eq!(data[0], RTC_STATUS_B_VALUE);
    rtc.pio_read(0, &mut data);
    assert_eq!(data[0], 0xff);
}

#[test]
fn leap_day_after_century() {
    // 2000-02-29 00:00:00 UTC
    let (year, month, day, _, _, _, weekday) = RtcDevice::unix_to_datetime(951782400);
    assert_eq!((year, month, day), (2000, 2, 29));
    assert_eq!(weekday, 3);
}
