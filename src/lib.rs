//! Command encoding for an air-conditioner infrared remote control: a
//! validated command state, its wire layout with checksum, and a generic
//! pulse/gap timing encoder for infrared transmitters.
use vstd::prelude::*;

mod bits;
mod elios;
mod infrared;
mod temperature;

pub use bits::{
    bit_of, bitreverse, bits_of, bytes_to_bits, lemma_bitreverse_involutive, reverse_bits,
    AsBitVec,
};
pub use elios::{
    be_value, checksum_of, elios_ir, fan_mode_temperature, frame, lemma_celcius_clamped,
    lemma_fan_forced_off, lemma_sleep_only_where_available,
    lemma_temperature_required_unless_fan, normalized_fan_speed, normalized_temperature,
    options_byte, payload, rejected, temperature_byte, EliosFanSpeed, EliosMode,
    EliosState, FAHRENHEIT_FLAG, FAN_TEMPERATURE, HEADER, TEMPERATURE_MARKER, TIMER_DISABLED,
};
pub use infrared::{lemma_pulse_train_shape, pulse_train, symbol, InfraredProtocol};
pub use temperature::{
    celcius_of, clamp_int, clamped, fahrenheit_of, in_settable_range, Temperature, MAX_CELCIUS,
    MAX_FAHRENHEIT, MIN_CELCIUS, MIN_FAHRENHEIT,
};

verus! {

/// The command state of the appliance.
pub type State = EliosState;

/// The fan speed of a command.
pub type FanSpeed = EliosFanSpeed;

/// The operating mode of a command.
pub type Mode = EliosMode;

} // verus!
