use hwtop::error::{Cause, Error};
use hwtop::hwmon::{
    parse_bat_capacity_sensor, parse_bat_status_sensor, parse_fan_sensor, parse_hwmon,
    parse_hwmon_raw, parse_pwm_sensor, parse_scaling_cur_freq, parse_temp_sensor, Reading, Source,
};

const PATH: &str = "/sys/class/hwmon/hwmon0/temp1_input";

fn file(content: &[u8]) -> Source {
    Source { path: PATH.to_owned(), reading: Reading::Data(content.to_vec()) }
}

fn missing() -> Source {
    Source {
        path: PATH.to_owned(),
        reading: Reading::NotFound("No such file or directory (os error 2)".to_owned()),
    }
}

fn gone() -> Source {
    Source {
        path: PATH.to_owned(),
        reading: Reading::NoDevice("No such device or address (os error 6)".to_owned()),
    }
}

fn denied() -> Source {
    Source {
        path: PATH.to_owned(),
        reading: Reading::Failed("Permission denied (os error 13)".to_owned()),
    }
}

fn failure(cause: Cause) -> Error {
    Error::Path(cause, PATH.to_owned())
}

#[test]
fn raw_value_is_the_first_line() {
    assert_eq!(parse_hwmon_raw(&file(b"42000\n")), Ok(Some(b"42000".to_vec())));
    assert_eq!(parse_hwmon_raw(&file(b"42000")), Ok(Some(b"42000".to_vec())));
    assert_eq!(parse_hwmon_raw(&file(b"Charging\nrest\n")), Ok(Some(b"Charging".to_vec())));
    assert_eq!(parse_hwmon_raw(&file(b"\n")), Ok(Some(Vec::new())));
    assert_eq!(
        parse_hwmon_raw(&file("45\u{b0}\n".as_bytes())),
        Ok(Some("45\u{b0}".as_bytes().to_vec()))
    );
}

#[test]
fn a_missing_file_has_no_value() {
    assert_eq!(parse_hwmon_raw(&missing()), Ok(None));
    assert_eq!(parse_hwmon(&missing(), 255), Ok(None));
}

#[test]
fn a_device_that_is_gone_has_no_value() {
    assert_eq!(parse_hwmon_raw(&gone()), Ok(None));
    assert_eq!(parse_hwmon(&gone(), 255), Ok(None));
}

#[test]
fn any_other_read_failure_is_an_error_with_the_path() {
    let expected = failure(Cause::Io("Permission denied (os error 13)".to_owned()));
    assert_eq!(parse_hwmon_raw(&denied()), Err(expected.clone()));
    assert_eq!(parse_hwmon(&denied(), 255), Err(expected));
}

#[test]
fn an_empty_file_is_an_error() {
    assert_eq!(parse_hwmon_raw(&file(b"")), Err(failure(Cause::EmptyFile)));
    assert_eq!(parse_hwmon(&file(b""), 255), Err(failure(Cause::EmptyFile)));
}

#[test]
fn text_that_is_not_utf8_is_an_error() {
    assert_eq!(parse_hwmon_raw(&file(b"4\xFF2\n")), Err(failure(Cause::NotUtf8)));
    assert_eq!(parse_hwmon_raw(&file(b"\xC3\n")), Err(failure(Cause::NotUtf8)));
    assert_eq!(parse_hwmon(&file(b"\x80"), 255), Err(failure(Cause::NotUtf8)));
    assert_eq!(parse_bat_status_sensor(&file(b"Full\xFF\n")), Err(failure(Cause::NotUtf8)));
}

#[test]
fn only_the_first_line_has_to_be_utf8() {
    assert_eq!(parse_hwmon_raw(&file(b"42\n\xFF\xFF")), Ok(Some(b"42".to_vec())));
}

#[test]
fn numbers_are_read() {
    assert_eq!(parse_hwmon(&file(b"0\n"), 255), Ok(Some(0)));
    assert_eq!(parse_hwmon(&file(b"255\n"), 255), Ok(Some(255)));
    assert_eq!(parse_hwmon(&file(b"+17\n"), 255), Ok(Some(17)));
    assert_eq!(parse_hwmon(&file(b"007\n"), 255), Ok(Some(7)));
    assert_eq!(
        parse_hwmon(&file(b"340282366920938463463374607431768211455"), u128::MAX),
        Ok(Some(u128::MAX))
    );
}

#[test]
fn what_is_no_number_is_an_error() {
    for content in [
        &b"256\n"[..],
        b"\n",
        b"+\n",
        b"-1\n",
        b"12 \n",
        b" 12\n",
        b"1.5\n",
        b"++1\n",
        b"0x10\n",
        b"twelve\n",
        b"12\r\n",
    ] {
        assert_eq!(parse_hwmon(&file(content), 255), Err(failure(Cause::NotANumber)));
    }
    assert_eq!(
        parse_hwmon(&file(b"340282366920938463463374607431768211456"), u128::MAX),
        Err(failure(Cause::NotANumber))
    );
}

#[test]
fn a_sensor_without_a_file_has_no_value() {
    assert_eq!(parse_temp_sensor(None), Ok(None));
    assert_eq!(parse_fan_sensor(None), Ok(None));
    assert_eq!(parse_pwm_sensor(None), Ok(None));
}

#[test]
fn temperature_in_thousandths_of_a_degree() {
    assert_eq!(parse_temp_sensor(Some(&file(b"42000\n"))), Ok(Some(42_000)));
    assert_eq!(parse_temp_sensor(Some(&file(b"-5500\n"))), Ok(Some(-5_500)));
    assert_eq!(parse_temp_sensor(Some(&file(b"+1\n"))), Ok(Some(1)));
    assert_eq!(parse_temp_sensor(Some(&file(b"-0\n"))), Ok(Some(0)));
    assert_eq!(parse_temp_sensor(Some(&file(b"2147483647\n"))), Ok(Some(i32::MAX)));
    assert_eq!(parse_temp_sensor(Some(&file(b"-2147483648\n"))), Ok(Some(i32::MIN)));
    assert_eq!(parse_temp_sensor(Some(&missing())), Ok(None));
    assert_eq!(parse_temp_sensor(Some(&gone())), Ok(None));
}

#[test]
fn temperature_that_cannot_be_used() {
    for content in [&b"2147483648\n"[..], b"-2147483649\n", b"-\n", b"+-1\n", b"-+1\n", b"42.5\n"]
    {
        assert_eq!(
            parse_temp_sensor(Some(&file(content))),
            Err(failure(Cause::NotANumber))
        );
    }
    assert_eq!(parse_temp_sensor(Some(&file(b""))), Err(failure(Cause::EmptyFile)));
    assert_eq!(
        parse_temp_sensor(Some(&denied())),
        Err(failure(Cause::Io("Permission denied (os error 13)".to_owned())))
    );
}

#[test]
fn fan_speed_fits_sixteen_bits() {
    assert_eq!(parse_fan_sensor(Some(&file(b"1200\n"))), Ok(Some(1200)));
    assert_eq!(parse_fan_sensor(Some(&file(b"65535\n"))), Ok(Some(65535)));
    assert_eq!(parse_fan_sensor(Some(&file(b"65536\n"))), Err(failure(Cause::NotANumber)));
    assert_eq!(parse_fan_sensor(Some(&missing())), Ok(None));
    assert_eq!(parse_fan_sensor(Some(&gone())), Ok(None));
}

#[test]
fn duty_cycle_fits_eight_bits() {
    assert_eq!(parse_pwm_sensor(Some(&file(b"128\n"))), Ok(Some(128)));
    assert_eq!(parse_pwm_sensor(Some(&file(b"255\n"))), Ok(Some(255)));
    assert_eq!(parse_pwm_sensor(Some(&file(b"256\n"))), Err(failure(Cause::NotANumber)));
    assert_eq!(parse_pwm_sensor(Some(&missing())), Ok(None));
}

#[test]
fn battery_capacity() {
    assert_eq!(parse_bat_capacity_sensor(&file(b"87\n")), Ok(Some(87)));
    assert_eq!(parse_bat_capacity_sensor(&file(b"100\n")), Ok(Some(100)));
    assert_eq!(parse_bat_capacity_sensor(&missing()), Ok(None));
    assert_eq!(parse_bat_capacity_sensor(&gone()), Ok(None));
    assert_eq!(parse_bat_capacity_sensor(&file(b"full\n")), Err(failure(Cause::NotANumber)));
}

#[test]
fn battery_status_says_charging_only_for_two_states() {
    assert_eq!(parse_bat_status_sensor(&file(b"Charging\n")), Ok(Some(true)));
    assert_eq!(parse_bat_status_sensor(&file(b"Full\n")), Ok(Some(true)));
    assert_eq!(parse_bat_status_sensor(&file(b"Full")), Ok(Some(true)));
    assert_eq!(parse_bat_status_sensor(&file(b"Discharging\n")), Ok(None));
    assert_eq!(parse_bat_status_sensor(&file(b"Not charging\n")), Ok(None));
    assert_eq!(parse_bat_status_sensor(&file(b"charging\n")), Ok(None));
    assert_eq!(parse_bat_status_sensor(&file(b"Charging \n")), Ok(None));
    assert_eq!(parse_bat_status_sensor(&file(b"\n")), Ok(None));
    assert_eq!(parse_bat_status_sensor(&missing()), Ok(None));
    assert_eq!(parse_bat_status_sensor(&gone()), Ok(None));
    assert_eq!(parse_bat_status_sensor(&file(b"")), Err(failure(Cause::EmptyFile)));
}

#[test]
fn scaling_frequency_in_khz() {
    let mut frequency = 7;
    assert_eq!(parse_scaling_cur_freq(&file(b"3400000\n"), &mut frequency), Ok(()));
    assert_eq!(frequency, 3_400_000);
    assert_eq!(parse_scaling_cur_freq(&missing(), &mut frequency), Ok(()));
    assert_eq!(frequency, 0);
    frequency = 7;
    assert_eq!(
        parse_scaling_cur_freq(&file(b"fast\n"), &mut frequency),
        Err(failure(Cause::NotANumber))
    );
    assert_eq!(frequency, 7);
    assert_eq!(
        parse_scaling_cur_freq(&file(b"18446744073709551616\n"), &mut frequency),
        Err(failure(Cause::NotANumber))
    );
    assert_eq!(parse_scaling_cur_freq(&file(b"18446744073709551615\n"), &mut frequency), Ok(()));
    assert_eq!(frequency, u64::MAX);
}
