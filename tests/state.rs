use ac_remote::{
FanSpeed, Mode, State, Temperature, MAX_CELCIUS, MAX_FAHRENHEIT, MIN_CELCIUS, MIN_FAHRENHEIT,
};

#[test]
fn lib_given_cold_auto_17c_on_state_then_value_is_properly_computed() {
    assert_eq!(
        State::new(
            Some(FanSpeed::Automatic),
            Mode::Cold,
            Some(Temperature::Celcius(17)),
            true,
            false,
        )
        .unwrap()
        .as_value(),
        0b10100001_10100000_01000000_11111111_11111111_01101110,
    );
}

#[test]
fn lib_given_cold_auto_18c_on_state_then_value_is_properly_computed() {
    assert_eq!(
        State::new(
            Some(FanSpeed::Automatic),
            Mode::Cold,
            Some(Temperature::Celcius(18)),
            true,
            false,
        )
        .unwrap()
        .as_value(),
        0b10100001_10100000_01000001_11111111_11111111_01101111,
    );
}

#[test]
fn lib_given_cold_auto_62f_on_state_then_value_is_properly_computed() {
    assert_eq!(
        State::new(
            Some(FanSpeed::Automatic),
            Mode::Cold,
            Some(Temperature::Fahrenheit(62)),
            true,
            false,
        )
        .unwrap()
        .as_value(),
        0b10100001_10100000_01100000_11111111_11111111_01001110,
    );
}

#[test]
fn lib_given_cold_auto_17c_off_state_then_value_is_properly_computed() {
    assert_eq!(
        State::new(
            Some(FanSpeed::Automatic),
            Mode::Cold,
            Some(Temperature::Celcius(17)),
            false,
            false,
        )
        .unwrap()
        .as_value(),
        0b10100001_00100000_01000000_11111111_11111111_11101110
    );
}

#[test]
fn lib_given_cold_auto_17c_on_sleeping_state_then_value_is_properly_computed() {
    assert_eq!(
        State::new(
            Some(FanSpeed::Automatic),
            Mode::Cold,
            Some(Temperature::Celcius(17)),
            true,
            true,
        )
        .unwrap()
        .as_value(),
        0b10100001_11100000_01000000_11111111_11111111_00101110
    );
}

#[test]
fn lib_given_heat_auto_30c_on_state_then_value_is_properly_computed() {
    assert_eq!(
        State::new(
            Some(FanSpeed::Automatic),
            Mode::Heat,
            Some(Temperature::Celcius(30)),
            true,
            false,
        )
        .unwrap()
        .as_value(),
        0b10100001_10100011_01001101_11111111_11111111_01100000
    );
}

#[test]
fn lib_given_fan_auto_on_state_then_value_is_properly_computed() {
    println!(
        "{:b}",
        State::new(Some(FanSpeed::Automatic), Mode::Fan, None, true, false)
            .unwrap()
            .as_value()
    );

    assert_eq!(
        State::new(Some(FanSpeed::Automatic), Mode::Fan, None, true, false)
            .unwrap()
            .as_value(),
        0b10100001_10100100_01011110_11111111_11111111_01111011
    );
}

#[test]
fn lib_given_dry_30c_on_state_then_value_is_properly_computed() {
    assert_eq!(
        State::new(None, Mode::Dry, Some(Temperature::Celcius(30)), true, false,)
            .unwrap()
            .as_value(),
        0b10100001_10000001_01001101_11111111_11111111_01010010
    );
}

#[test]
fn lib_given_cold_auto_78f_on_state_then_value_is_properly_computed() {
    assert_eq!(
        State::new(
            Some(FanSpeed::Automatic),
            Mode::Cold,
            Some(Temperature::Fahrenheit(78)),
            true,
            false,
        )
        .unwrap()
        .as_value(),
        0b10100001_10100000_01110000_11111111_11111111_01010110
    );
}

#[test]
fn lib_when_auto_mode_then_cannot_select_fan_speed() {
    let state = State::new(
        Some(FanSpeed::High),
        Mode::Automatic,
        Some(Temperature::Celcius(24)),
        true,
        false,
    );

    assert!(state.is_none())
}

#[test]
fn lib_when_fan_mode_then_cannot_select_temperature() {
    let state = State::new(
        Some(FanSpeed::Low),
        Mode::Fan,
        Some(Temperature::Celcius(24)),
        true,
        true,
    );

    assert!(state.is_none())
}

#[test]
fn lib_when_dry_mode_then_sleep_is_unavailable() {
    let state =
        State::new(None, Mode::Dry, Some(Temperature::Celcius(24)), true, true).unwrap();

    assert_eq!(state.sleep(), false);
}

#[test]
fn lib_when_fan_mode_then_sleep_is_unavailable() {
    let state = State::new(Some(FanSpeed::Low), Mode::Fan, None, true, true).unwrap();

    assert_eq!(state.sleep(), false);
}

#[test]
fn lib_given_out_of_range_temperature_then_temperature_is_clamped() {
    let lower_min_celcius = State::new(
        Some(FanSpeed::Automatic),
        Mode::Cold,
        Some(Temperature::Celcius(MIN_CELCIUS - 1)),
        true,
        false,
    )
    .unwrap();
    let higher_max_celcius = State::new(
        Some(FanSpeed::Automatic),
        Mode::Cold,
        Some(Temperature::Celcius(MAX_CELCIUS + 1)),
        true,
        false,
    )
    .unwrap();

    let lower_min_fahrenheit = State::new(
        Some(FanSpeed::Automatic),
        Mode::Cold,
        Some(Temperature::Fahrenheit(MIN_FAHRENHEIT - 1)),
        true,
        false,
    )
    .unwrap();
    let higher_max_fahrenheit = State::new(
        Some(FanSpeed::Automatic),
        Mode::Cold,
        Some(Temperature::Fahrenheit(MAX_FAHRENHEIT + 1)),
        true,
        false,
    )
    .unwrap();

    assert_eq!(
        lower_min_celcius.temperature(),
        Temperature::Celcius(MIN_CELCIUS)
    );
    assert_eq!(
        higher_max_celcius.temperature(),
        Temperature::Celcius(MAX_CELCIUS)
    );

    assert_eq!(
        lower_min_fahrenheit.temperature(),
        Temperature::Fahrenheit(MIN_FAHRENHEIT)
    );
    assert_eq!(
        higher_max_fahrenheit.temperature(),
        Temperature::Fahrenheit(MAX_FAHRENHEIT)
    );
}
