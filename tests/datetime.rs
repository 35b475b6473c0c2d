use ds1307::{Date, DateTime, Ds1307, Error, ErrorKind, Hours, Time};
use embedded_hal_mock::eh1::i2c::{Mock as I2cMock, Transaction as I2cTrans};

const ADDR: u8 = 0b110_1000;
const SECONDS: u8 = 0x00;
const DOW: u8 = 0x03;
const DOM: u8 = 0x04;

fn new(transactions: &[I2cTrans]) -> Ds1307<I2cMock> {
    Ds1307::new(I2cMock::new(transactions))
}

fn destroy(dev: Ds1307<I2cMock>) {
    dev.destroy().done();
}

fn get_valid_datetime() -> DateTime {
    DateTime {
        year: 2018,
        month: 8,
        day: 13,
        weekday: 2,
        hour: Hours::H24(23),
        minute: 59,
        second: 58,
    }
}

#[test]
fn get_datetime() {
    let mut dev = new(&[I2cTrans::write_read(
        ADDR,
        vec![SECONDS],
        vec![
            0b1101_1000,
            0b0101_1001,
            0b0010_0011,
            0b0000_0010,
            0b0001_0011,
            0b0000_1000,
            0b0001_1000,
        ],
    )]);
    assert_eq!(get_valid_datetime(), dev.datetime().unwrap());
    destroy(dev);
}

#[test]
fn get_datetime_of_impossible_date_fails() {
    let mut dev = new(&[I2cTrans::write_read(
        ADDR,
        vec![SECONDS],
        vec![0, 0, 0, 1, 0b0011_0000, 0b0000_0010, 0b0001_1000],
    )]);
    assert!(matches!(dev.datetime(), Err(Error::InvalidInputData)));
    destroy(dev);
}

#[test]
fn get_datetime_in_leap_year() {
    let mut dev = new(&[I2cTrans::write_read(
        ADDR,
        vec![SECONDS],
        vec![0, 0, 0b0111_0001, 1, 0b0010_1001, 0b0000_0010, 0b0010_0000],
    )]);
    let expected = DateTime {
        year: 2020,
        month: 2,
        day: 29,
        weekday: 1,
        hour: Hours::PM(11),
        minute: 0,
        second: 0,
    };
    assert_eq!(expected, dev.datetime().unwrap());
    destroy(dev);
}

#[test]
fn get_date() {
    let mut dev = new(&[I2cTrans::write_read(
        ADDR,
        vec![DOM],
        vec![0b0001_0011, 0b0000_1000, 0b0001_1000],
    )]);
    assert_eq!(
        Date {
            year: 2018,
            month: 8,
            day: 13
        },
        dev.date().unwrap()
    );
    destroy(dev);
}

#[test]
fn get_time() {
    let mut dev = new(&[I2cTrans::write_read(
        ADDR,
        vec![SECONDS],
        vec![0b1101_1000, 0b0101_1001, 0b0010_0011],
    )]);
    assert_eq!(
        Time {
            hour: 23,
            minute: 59,
            second: 58
        },
        dev.time().unwrap()
    );
    destroy(dev);
}

#[test]
fn year_too_small() {
    let mut rtc = new(&[]);
    let mut dt = get_valid_datetime();
    dt.year = 1999;
    assert!(matches!(rtc.set_datetime(&dt), Err(Error::InvalidInputData)));
    destroy(rtc);
}

#[test]
fn year_too_big() {
    let mut rtc = new(&[]);
    let mut dt = get_valid_datetime();
    dt.year = 2100;
    assert!(matches!(rtc.set_datetime(&dt), Err(Error::InvalidInputData)));
    destroy(rtc);
}

#[test]
fn set_datetime_rejects_each_field_out_of_range() {
    let base = get_valid_datetime();
    let bad = [
        DateTime { month: 0, ..base },
        DateTime { month: 13, ..base },
        DateTime { day: 0, ..base },
        DateTime { day: 32, ..base },
        DateTime { weekday: 0, ..base },
        DateTime { weekday: 8, ..base },
        DateTime { hour: Hours::H24(24), ..base },
        DateTime { hour: Hours::AM(0), ..base },
        DateTime { minute: 60, ..base },
        DateTime { second: 60, ..base },
    ];
    for dt in bad.iter() {
        let mut rtc = new(&[]);
        assert!(matches!(rtc.set_datetime(dt), Err(Error::InvalidInputData)));
        destroy(rtc);
    }
}

#[test]
fn can_set_datetime() {
    let mut rtc = new(&[
        I2cTrans::write_read(ADDR, vec![SECONDS], vec![0b1101_1000]),
        I2cTrans::write(
            ADDR,
            vec![
                SECONDS,
                0b1101_1000,
                0b0101_1001,
                0b0010_0011,
                0b0000_0010,
                0b0001_0011,
                0b0000_1000,
                0b0001_1000,
            ],
        ),
    ]);
    let dt = get_valid_datetime();
    rtc.set_datetime(&dt).unwrap();
    destroy(rtc);
}

#[test]
fn set_datetime_at_upper_limits_keeps_halt_bit() {
    let mut rtc = new(&[
        I2cTrans::write_read(ADDR, vec![SECONDS], vec![0b1101_1000]),
        I2cTrans::write(
            ADDR,
            vec![
                SECONDS,
                0b1101_1000,
                0b0101_1001,
                0b0010_0011,
                0b0000_0111,
                0b0011_0001,
                0b0001_0010,
                0b1001_1001,
            ],
        ),
    ]);
    let dt = DateTime {
        year: 2099,
        month: 12,
        day: 31,
        weekday: 7,
        hour: Hours::H24(23),
        minute: 59,
        second: 58,
    };
    rtc.set_datetime(&dt).unwrap();
    destroy(rtc);
}

#[test]
fn can_set_time() {
    let mut rtc = new(&[
        I2cTrans::write_read(ADDR, vec![SECONDS], vec![0b1101_1000]),
        I2cTrans::write(ADDR, vec![SECONDS, 0b1101_1000, 0b0101_1001, 0b0010_0011]),
    ]);
    rtc.set_time(&Time {
        hour: 23,
        minute: 59,
        second: 58,
    })
    .unwrap();
    destroy(rtc);
}

#[test]
fn set_time_rejects_out_of_range() {
    let mut rtc = new(&[]);
    let bad = [
        Time { hour: 24, minute: 0, second: 0 },
        Time { hour: 0, minute: 60, second: 0 },
        Time { hour: 0, minute: 0, second: 60 },
    ];
    for t in bad.iter() {
        assert!(matches!(rtc.set_time(t), Err(Error::InvalidInputData)));
    }
    destroy(rtc);
}

#[test]
fn can_set_date() {
    let mut rtc = new(&[I2cTrans::write(
        ADDR,
        vec![DOW, 0b0000_0010, 0b0001_0011, 0b0000_1000, 0b0001_1000],
    )]);
    rtc.set_date(&Date {
        year: 2018,
        month: 8,
        day: 13,
    })
    .unwrap();
    destroy(rtc);
}

#[test]
fn set_date_rejects_impossible_dates() {
    let mut rtc = new(&[]);
    let bad = [
        Date { year: 2019, month: 2, day: 29 },
        Date { year: 2018, month: 4, day: 31 },
        Date { year: 1999, month: 1, day: 1 },
        Date { year: 2100, month: 1, day: 1 },
        Date { year: 2018, month: 13, day: 1 },
    ];
    for d in bad.iter() {
        assert!(matches!(rtc.set_date(d), Err(Error::InvalidInputData)));
    }
    destroy(rtc);
}

#[test]
fn get_time_of_impossible_hour_fails() {
    let mut dev = new(&[
        I2cTrans::write_read(ADDR, vec![SECONDS], vec![0, 0, 0b0010_0100]),
        I2cTrans::write_read(ADDR, vec![SECONDS], vec![0, 0, 0b0101_0011, 1, 1, 1, 0]),
        I2cTrans::write_read(ADDR, vec![SECONDS], vec![0, 0, 0b0110_0000, 1, 1, 1, 0]),
    ]);
    assert!(matches!(dev.time(), Err(Error::InvalidInputData)));
    assert!(matches!(dev.datetime(), Err(Error::InvalidInputData)));
    assert!(matches!(dev.datetime(), Err(Error::InvalidInputData)));
    destroy(dev);
}

#[test]
fn get_datetime_with_weekday_out_of_range_fails() {
    let mut dev = new(&[
        I2cTrans::write_read(ADDR, vec![SECONDS], vec![0, 0, 0, 0, 1, 1, 0]),
        I2cTrans::write_read(ADDR, vec![SECONDS], vec![0, 0, 0, 8, 1, 1, 0]),
    ]);
    assert!(matches!(dev.datetime(), Err(Error::InvalidInputData)));
    assert!(matches!(dev.datetime(), Err(Error::InvalidInputData)));
    destroy(dev);
}

#[test]
fn get_datetime_at_noon_and_midnight_in_12_hour_mode() {
    let mut dev = new(&[
        I2cTrans::write_read(ADDR, vec![SECONDS], vec![0, 0, 0b0111_0010, 1, 1, 1, 0]),
        I2cTrans::write_read(ADDR, vec![SECONDS], vec![0, 0, 0b0101_0010, 1, 1, 1, 0]),
    ]);
    let noon = DateTime {
        year: 2000,
        month: 1,
        day: 1,
        weekday: 1,
        hour: Hours::PM(12),
        minute: 0,
        second: 0,
    };
    assert_eq!(noon, dev.datetime().unwrap());
    let midnight = DateTime {
        hour: Hours::AM(12),
        ..noon
    };
    assert_eq!(midnight, dev.datetime().unwrap());
    destroy(dev);
}

#[test]
fn get_time_at_noon_and_midnight_in_12_hour_mode() {
    let mut dev = new(&[
        I2cTrans::write_read(ADDR, vec![SECONDS], vec![0, 0, 0b0111_0010]),
        I2cTrans::write_read(ADDR, vec![SECONDS], vec![0, 0, 0b0101_0010]),
    ]);
    let noon = Time {
        hour: 12,
        minute: 0,
        second: 0,
    };
    assert_eq!(noon, dev.time().unwrap());
    assert_eq!(Time { hour: 0, ..noon }, dev.time().unwrap());
    destroy(dev);
}

#[test]
fn set_date_writes_the_calendar_weekday() {
    let cases = [
        (Date { year: 2000, month: 1, day: 1 }, vec![DOW, 7, 0x01, 0x01, 0x00]),
        (Date { year: 2024, month: 2, day: 29 }, vec![DOW, 5, 0x29, 0x02, 0x24]),
        (Date { year: 2099, month: 12, day: 31 }, vec![DOW, 5, 0x31, 0x12, 0x99]),
        (Date { year: 2023, month: 10, day: 1 }, vec![DOW, 1, 0x01, 0x10, 0x23]),
    ];
    for (date, bytes) in cases.iter() {
        let mut rtc = new(&[I2cTrans::write(ADDR, bytes.clone())]);
        rtc.set_date(date).unwrap();
        destroy(rtc);
    }
}

#[test]
fn set_datetime_reports_the_bus_error_of_the_read() {
    let mut rtc = new(&[I2cTrans::write_read(ADDR, vec![SECONDS], vec![0])
        .with_error(ErrorKind::ArbitrationLoss)]);
    match rtc.set_datetime(&get_valid_datetime()) {
        Err(Error::I2C(ErrorKind::ArbitrationLoss)) => (),
        _ => panic!("bus error not returned"),
    }
    destroy(rtc);
}

#[test]
fn get_time_in_12_hour_mode() {
    let mut dev = new(&[I2cTrans::write_read(
        ADDR,
        vec![SECONDS],
        vec![0b0000_0101, 0b0011_0000, 0b0110_0001],
    )]);
    assert_eq!(
        Time {
            hour: 13,
            minute: 30,
            second: 5
        },
        dev.time().unwrap()
    );
    destroy(dev);
}
