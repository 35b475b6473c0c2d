use ds1307::{
    decimal_to_packed_bcd, get_h24, get_hour_of_day, get_hours_from_register,
    get_hours_register_value, packed_bcd_to_decimal, Hours,
};

#[test]
fn can_convert_to_h24() {
    assert_eq!(0, get_h24(Hours::H24(0)));
    assert_eq!(0, get_h24(Hours::AM(0)));
    assert_eq!(12, get_h24(Hours::PM(0)));

    assert_eq!(1, get_h24(Hours::H24(1)));
    assert_eq!(1, get_h24(Hours::AM(1)));
    assert_eq!(13, get_h24(Hours::PM(1)));

    assert_eq!(23, get_h24(Hours::H24(23)));
    assert_eq!(12, get_h24(Hours::AM(12)));
    assert_eq!(23, get_h24(Hours::PM(11)));
}

#[test]
fn can_convert_packed_bcd_to_decimal() {
    assert_eq!(0, packed_bcd_to_decimal(0b0000_0000));
    assert_eq!(1, packed_bcd_to_decimal(0b0000_0001));
    assert_eq!(9, packed_bcd_to_decimal(0b0000_1001));
    assert_eq!(10, packed_bcd_to_decimal(0b0001_0000));
    assert_eq!(11, packed_bcd_to_decimal(0b0001_0001));
    assert_eq!(19, packed_bcd_to_decimal(0b0001_1001));
    assert_eq!(20, packed_bcd_to_decimal(0b0010_0000));
    assert_eq!(21, packed_bcd_to_decimal(0b0010_0001));
    assert_eq!(59, packed_bcd_to_decimal(0b0101_1001));
}

#[test]
fn can_convert_decimal_to_packed_bcd() {
    assert_eq!(0b0000_0000, decimal_to_packed_bcd(0));
    assert_eq!(0b0000_0001, decimal_to_packed_bcd(1));
    assert_eq!(0b0000_1001, decimal_to_packed_bcd(9));
    assert_eq!(0b0001_0000, decimal_to_packed_bcd(10));
    assert_eq!(0b0001_0001, decimal_to_packed_bcd(11));
    assert_eq!(0b0001_1001, decimal_to_packed_bcd(19));
    assert_eq!(0b0010_0000, decimal_to_packed_bcd(20));
    assert_eq!(0b0010_0001, decimal_to_packed_bcd(21));
    assert_eq!(0b0101_1001, decimal_to_packed_bcd(59));
}

#[test]
fn bcd_round_trip_for_every_decimal() {
    for d in 0u8..=99 {
        assert_eq!(d, packed_bcd_to_decimal(decimal_to_packed_bcd(d)));
    }
}

#[test]
fn malformed_bcd_decodes_without_panic() {
    assert_eq!(165, packed_bcd_to_decimal(0xFF));
    assert_eq!(15, packed_bcd_to_decimal(0x0F));
}

#[test]
fn hours_round_trip_for_every_valid_hour() {
    for h in 0u8..=23 {
        let b = get_hours_register_value(Hours::H24(h)).unwrap();
        assert_eq!(Hours::H24(h), get_hours_from_register(b));
    }
    for h in 1u8..=12 {
        let am = get_hours_register_value(Hours::AM(h)).unwrap();
        assert_eq!(Hours::AM(h), get_hours_from_register(am));
        let pm = get_hours_register_value(Hours::PM(h)).unwrap();
        assert_eq!(Hours::PM(h), get_hours_from_register(pm));
    }
}

#[test]
fn hours_register_values() {
    assert_eq!(Some(0b0010_0011), get_hours_register_value(Hours::H24(23)));
    assert_eq!(Some(0b0101_0010), get_hours_register_value(Hours::AM(12)));
    assert_eq!(Some(0b0111_0010), get_hours_register_value(Hours::PM(12)));
    assert_eq!(None, get_hours_register_value(Hours::H24(24)));
    assert_eq!(None, get_hours_register_value(Hours::AM(0)));
    assert_eq!(None, get_hours_register_value(Hours::AM(13)));
    assert_eq!(None, get_hours_register_value(Hours::PM(0)));
    assert_eq!(None, get_hours_register_value(Hours::PM(13)));
}

#[test]
fn hours_from_register_values() {
    assert_eq!(Hours::H24(23), get_hours_from_register(0b0010_0011));
    assert_eq!(Hours::AM(12), get_hours_from_register(0b0101_0010));
    assert_eq!(Hours::PM(12), get_hours_from_register(0b0111_0010));
    assert_eq!(Hours::PM(1), get_hours_from_register(0b0110_0001));
}

#[test]
fn hour_of_day_values() {
    assert_eq!(Some(0), get_hour_of_day(Hours::AM(12)));
    assert_eq!(Some(11), get_hour_of_day(Hours::AM(11)));
    assert_eq!(Some(12), get_hour_of_day(Hours::PM(12)));
    assert_eq!(Some(13), get_hour_of_day(Hours::PM(1)));
    assert_eq!(Some(23), get_hour_of_day(Hours::PM(11)));
    assert_eq!(Some(23), get_hour_of_day(Hours::H24(23)));
    assert_eq!(None, get_hour_of_day(Hours::H24(24)));
    assert_eq!(None, get_hour_of_day(Hours::AM(0)));
    assert_eq!(None, get_hour_of_day(Hours::PM(13)));
}

#[test]
fn hours_ignore_the_top_bit() {
    assert_eq!(Hours::H24(23), get_hours_from_register(0b1010_0011));
    assert_eq!(Hours::AM(12), get_hours_from_register(0b1101_0010));
    assert_eq!(Hours::PM(11), get_hours_from_register(0b1111_0001));
}
