use pockystation_core::bcd::bcd_from_binary;
use pockystation_core::error::Error;
use pockystation_core::rtc::{rtc_registers, sync_host_rtc, HostTime, RtcRegisters};

fn host_time(sec: i32) -> HostTime {
    HostTime {
        tm_sec: sec,
        tm_min: 7,
        tm_hour: 23,
        tm_mday: 30,
        tm_mon: 11,
        tm_year: 124,
        tm_wday: 6,
    }
}

#[test]
fn bcd_digits_in_nibbles() {
    assert_eq!(bcd_from_binary(0), Some(0x00));
    assert_eq!(bcd_from_binary(9), Some(0x09));
    assert_eq!(bcd_from_binary(45), Some(0x45));
    assert_eq!(bcd_from_binary(99), Some(0x99));
    assert_eq!(bcd_from_binary(100), None);
    assert_eq!(bcd_from_binary(255), None);
}

#[test]
fn registers_from_host_time() {
    let regs = rtc_registers(&host_time(42)).unwrap();
    assert_eq!(
        regs,
        RtcRegisters {
            century: 0x20,
            seconds: 0x42,
            minutes: 0x07,
            hours: 0x23,
            week_day: 0x07,
            day: 0x31,
            month: 0x12,
            year: 0x24,
        }
    );
}

#[test]
fn leap_second_clamps_to_59() {
    let regs = rtc_registers(&host_time(61)).unwrap();
    assert_eq!(regs.seconds, 0x59);
    let regs = rtc_registers(&host_time(60)).unwrap();
    assert_eq!(regs.seconds, 0x59);
}

#[test]
fn twentieth_century_year() {
    let mut t = host_time(0);
    t.tm_year = 99;
    let regs = rtc_registers(&t).unwrap();
    assert_eq!(regs.century, 0x19);
    assert_eq!(regs.year, 0x99);
}

#[test]
fn out_of_range_field_is_rejected() {
    let mut t = host_time(0);
    t.tm_min = 100;
    assert_eq!(rtc_registers(&t), Err(Error::BcdRangeViolation));
    let mut t = host_time(0);
    t.tm_year = 9000;
    assert_eq!(rtc_registers(&t), Err(Error::BcdRangeViolation));
    let mut t = host_time(0);
    t.tm_year = -2000;
    assert_eq!(rtc_registers(&t), Err(Error::BcdRangeViolation));
}

#[test]
fn host_clock_gives_valid_registers() {
    let regs = sync_host_rtc().unwrap();
    assert_eq!(regs.century, 0x20);
    assert!(regs.seconds <= 0x59);
    assert!(regs.month >= 0x01 && regs.month <= 0x12);
    assert!(regs.week_day >= 0x01 && regs.week_day <= 0x07);
}
