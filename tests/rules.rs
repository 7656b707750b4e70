use ac_remote::{EliosFanSpeed, EliosMode, EliosState, Temperature};

const MODES: [EliosMode; 5] = [
    EliosMode::Cold,
    EliosMode::Dry,
    EliosMode::Automatic,
    EliosMode::Heat,
    EliosMode::Fan,
];

const SPEEDS: [EliosFanSpeed; 5] = [
    EliosFanSpeed::Off,
    EliosFanSpeed::Automatic,
    EliosFanSpeed::Low,
    EliosFanSpeed::Medium,
    EliosFanSpeed::High,
];

fn cold(t: Temperature) -> EliosState {
    EliosState::new(None, EliosMode::Cold, Some(t), true, false).unwrap()
}

#[test]
fn celcius_in_range_is_kept() {
    for t in 17..=30u8 {
        assert_eq!(cold(Temperature::Celcius(t)).temperature(), Temperature::Celcius(t));
    }
}

#[test]
fn celcius_out_of_range_goes_to_the_nearer_bound() {
    assert_eq!(cold(Temperature::Celcius(16)).temperature(), Temperature::Celcius(17));
    assert_eq!(cold(Temperature::Celcius(0)).temperature(), Temperature::Celcius(17));
    assert_eq!(cold(Temperature::Celcius(31)).temperature(), Temperature::Celcius(30));
    assert_eq!(cold(Temperature::Celcius(255)).temperature(), Temperature::Celcius(30));
}

#[test]
fn fahrenheit_is_clamped_to_its_own_range() {
    assert_eq!(cold(Temperature::Fahrenheit(70)).temperature(), Temperature::Fahrenheit(70));
    assert_eq!(cold(Temperature::Fahrenheit(20)).temperature(), Temperature::Fahrenheit(62));
    assert_eq!(cold(Temperature::Fahrenheit(200)).temperature(), Temperature::Fahrenheit(86));
}

#[test]
fn fan_mode_refuses_any_temperature() {
    for f in SPEEDS {
        assert!(EliosState::new(Some(f), EliosMode::Fan, Some(Temperature::Celcius(24)), true, false).is_none());
        assert!(EliosState::new(None, EliosMode::Fan, Some(Temperature::Fahrenheit(70)), true, false).is_none());
    }
}

#[test]
fn other_modes_need_a_temperature() {
    for m in [EliosMode::Cold, EliosMode::Dry, EliosMode::Automatic, EliosMode::Heat] {
        assert!(EliosState::new(None, m, None, true, false).is_none());
    }
}

#[test]
fn fan_mode_stores_the_fixed_temperature() {
    let s = EliosState::new(None, EliosMode::Fan, None, false, false).unwrap();
    assert_eq!(s.temperature(), Temperature::Celcius(47));
    assert_eq!(s.fan_speed(), EliosFanSpeed::Automatic);
    assert_eq!(s.mode(), EliosMode::Fan);
    assert!(!s.powered());
}

#[test]
fn automatic_and_dry_refuse_a_fan_speed_other_than_off() {
    for m in [EliosMode::Automatic, EliosMode::Dry] {
        for f in [EliosFanSpeed::Automatic, EliosFanSpeed::Low, EliosFanSpeed::Medium, EliosFanSpeed::High] {
            assert!(EliosState::new(Some(f), m, Some(Temperature::Celcius(24)), true, false).is_none());
        }
        for f in [None, Some(EliosFanSpeed::Off)] {
            let s = EliosState::new(f, m, Some(Temperature::Celcius(24)), true, false).unwrap();
            assert_eq!(s.fan_speed(), EliosFanSpeed::Off);
        }
    }
}

#[test]
fn other_modes_default_to_automatic_fan_speed() {
    for m in [EliosMode::Cold, EliosMode::Heat] {
        let s = EliosState::new(None, m, Some(Temperature::Celcius(24)), true, false).unwrap();
        assert_eq!(s.fan_speed(), EliosFanSpeed::Automatic);
        for f in SPEEDS {
            let s = EliosState::new(Some(f), m, Some(Temperature::Celcius(24)), true, false).unwrap();
            assert_eq!(s.fan_speed(), f);
        }
    }
}

#[test]
fn sleep_is_kept_only_in_cold_heat_and_automatic() {
    for m in MODES {
        let t = if m == EliosMode::Fan { None } else { Some(Temperature::Celcius(24)) };
        let s = EliosState::new(None, m, t, true, true).unwrap();
        let expected = matches!(m, EliosMode::Cold | EliosMode::Heat | EliosMode::Automatic);
        assert_eq!(s.sleep(), expected);
        let s = EliosState::new(None, m, t, true, false).unwrap();
        assert!(!s.sleep());
    }
}

#[test]
fn wire_codes_are_fixed() {
    let fan: Vec<u8> = SPEEDS.iter().map(|f| f.code()).collect();
    assert_eq!(fan, vec![0b000, 0b100, 0b001, 0b010, 0b011]);
    let mode: Vec<u8> = MODES.iter().map(|m| m.code()).collect();
    assert_eq!(mode, vec![0b000, 0b001, 0b010, 0b011, 0b100]);
}

#[test]
fn checksum_extra_term_applies_when_fan_and_mode_bits_are_clear() {
    // Dry mode with fan speed off leaves bits 2-4 of the reversed options byte clear.
    let dry = EliosState::new(None, EliosMode::Dry, Some(Temperature::Celcius(30)), true, false).unwrap();
    assert_eq!(dry.as_value() & 0xff, 0b01010010);
    let heat = EliosState::new(Some(EliosFanSpeed::Off), EliosMode::Heat, Some(Temperature::Celcius(30)), true, false)
        .unwrap();
    assert_eq!(heat.as_value() >> 8, 0b10100001_10000011_01001101_11111111_11111111);
}
