use vstd::prelude::*;

use bit_vec::BitVec;

use crate::infrared::InfraredProtocol;
use crate::bits::{bitreverse, bits_from_bytes, bits_of, bytes_to_bits, reverse_bits, AsBitVec};
use crate::temperature::{
    clamp, clamped, in_settable_range, Temperature, MAX_CELCIUS, MIN_CELCIUS, MIN_FAHRENHEIT,
};

verus! {

/// Offset above the lowest Celsius value that fan-only mode stores as its
/// temperature; the appliance ignores it.
pub const FAN_TEMPERATURE: u8 = 0b11110;

/// First byte of every frame.
pub const HEADER: u8 = 0b10100001;

/// Set in the temperature byte of every frame; its meaning is unknown.
pub const TEMPERATURE_MARKER: u8 = 0b1000000;

/// Set in the temperature byte when the temperature is in Fahrenheit.
pub const FAHRENHEIT_FLAG: u8 = 0b100000;

/// Value of a timer byte whose timer is disabled.
pub const TIMER_DISABLED: u8 = 0b11111111;

/// Fan speed, each with the three-bit code it has on the wire.
#[derive(Debug, Clone, Copy, PartialEq, Eq, Structural)]
pub enum EliosFanSpeed {
    Off,
    Automatic,
    Low,
    Medium,
    High,
}

impl EliosFanSpeed {
    /// The three-bit wire code of the fan speed.
    pub open spec fn wire_code(self) -> u8 {
        match self {
            EliosFanSpeed::Off => 0b000,
            EliosFanSpeed::Automatic => 0b100,
            EliosFanSpeed::Low => 0b001,
            EliosFanSpeed::Medium => 0b010,
            EliosFanSpeed::High => 0b011,
        }
    }

    /// The three-bit wire code of the fan speed.
    pub fn code(self) -> (r: u8)
        ensures
            r == self.wire_code(),
            r < 8,
    {
        match self {
            EliosFanSpeed::Off => 0b000,
            EliosFanSpeed::Automatic => 0b100,
            EliosFanSpeed::Low => 0b001,
            EliosFanSpeed::Medium => 0b010,
            EliosFanSpeed::High => 0b011,
        }
    }
}

/// Operating mode, each with the three-bit code it has on the wire.
#[derive(Debug, Clone, Copy, PartialEq, Eq, Structural)]
pub enum EliosMode {
    Cold,
    Dry,
    Automatic,
    Heat,
    Fan,
}

impl EliosMode {
    /// The three-bit wire code of the mode.
    pub open spec fn wire_code(self) -> u8 {
        match self {
            EliosMode::Cold => 0b000,
            EliosMode::Dry => 0b001,
            EliosMode::Automatic => 0b010,
            EliosMode::Heat => 0b011,
            EliosMode::Fan => 0b100,
        }
    }

    /// The three-bit wire code of the mode.
    pub fn code(self) -> (r: u8)
        ensures
            r == self.wire_code(),
            r < 8,
    {
        match self {
            EliosMode::Cold => 0b000,
            EliosMode::Dry => 0b001,
            EliosMode::Automatic => 0b010,
            EliosMode::Heat => 0b011,
            EliosMode::Fan => 0b100,
        }
    }

    /// In this mode the appliance chooses the fan speed itself.
    pub open spec fn fan_forced_off(self) -> bool {
        self is Automatic || self is Dry
    }

    /// In this mode the sleep function is available.
    pub open spec fn sleep_available(self) -> bool {
        self is Cold || self is Heat || self is Automatic
    }
}

/// The temperature stored for fan-only mode.
pub open spec fn fan_mode_temperature() -> Temperature {
    Temperature::Celcius((MIN_CELCIUS + FAN_TEMPERATURE) as u8)
}

/// The requested fields form no valid command.
pub open spec fn rejected(
    fan_speed: Option<EliosFanSpeed>,
    mode: EliosMode,
    temperature: Option<Temperature>,
) -> bool {
    ||| mode is Fan && temperature is Some
    ||| mode !is Fan && temperature is None
    ||| mode.fan_forced_off() && (fan_speed matches Some(f) && f != EliosFanSpeed::Off)
}

/// The fan speed stored for a request that is not rejected.
pub open spec fn normalized_fan_speed(fan_speed: Option<EliosFanSpeed>, mode: EliosMode) -> EliosFanSpeed {
    if mode.fan_forced_off() {
        EliosFanSpeed::Off
    } else {
        match fan_speed {
            Some(f) => f,
            None => EliosFanSpeed::Automatic,
        }
    }
}

/// The temperature stored for a request that is not rejected.
pub open spec fn normalized_temperature(mode: EliosMode, temperature: Option<Temperature>) -> Temperature {
    if mode is Fan {
        fan_mode_temperature()
    } else {
        clamped(temperature.unwrap())
    }
}

/// Byte 1 of the frame: power (bit 7), sleep (bit 6), fan speed (bits 5-3)
/// and mode (bits 2-0).
pub open spec fn options_byte(powered: bool, sleep: bool, fan_speed: EliosFanSpeed, mode: EliosMode) -> u8 {
    (if powered { 0x80u8 } else { 0u8 }) | (if sleep { 0x40u8 } else { 0u8 }) | (fan_speed.wire_code()
        << 3u8) | mode.wire_code()
}

/// Byte 2 of the frame: the fixed marker bit, then the offset of the
/// temperature above the lowest settable value of its unit, with the
/// Fahrenheit flag for a Fahrenheit value.
pub open spec fn temperature_byte(t: Temperature) -> u8 {
    TEMPERATURE_MARKER | match t {
        Temperature::Celcius(d) => (d - MIN_CELCIUS) as u8,
        Temperature::Fahrenheit(d) => ((d - MIN_FAHRENHEIT) as u8) | FAHRENHEIT_FLAG,
    }
}

/// The five bytes that precede the checksum.
pub open spec fn payload(s: EliosState) -> Seq<u8> {
    seq![
        HEADER,
        options_byte(s.powered(), s.sleep(), s.fan_speed(), s.mode()),
        temperature_byte(s.temperature()),
        TIMER_DISABLED,
        TIMER_DISABLED,
    ]
}

/// The checksum of a frame whose first three bytes are `d0`, `d1`, `d2`:
/// computed on the bit-reversed bytes, then bit-reversed itself.
pub open spec fn checksum_of(d0: u8, d1: u8, d2: u8) -> u8 {
    let r0 = reverse_bits(d0);
    let r1 = reverse_bits(d1);
    let r2 = reverse_bits(d2);
    let extra: u8 = if (r1 >> 2u8) & 0b111u8 == 0u8 { 0b1000u8 } else { 0u8 };
    let xor_nibble: u8 = (r0 ^ r1 ^ r2 ^ 0b100u8 ^ extra) & 0xfu8;
    let sum_nibble: u8 = (((r0 >> 4u8) + (r1 >> 4u8) + (r2 >> 4u8) + ((r2 >> 3u8) & 1u8)) % 16) as u8;
    reverse_bits(((!sum_nibble) << 4u8) | xor_nibble)
}

/// The six bytes sent for a command: the payload, then its checksum.
pub open spec fn frame(s: EliosState) -> Seq<u8> {
    let p = payload(s);
    p.push(checksum_of(p[0], p[1], p[2]))
}

/// The bytes read as one unsigned number, most significant byte first.
pub open spec fn be_value(bytes: Seq<u8>) -> nat
    decreases bytes.len(),
{
    if bytes.len() == 0 {
        0
    } else {
        be_value(bytes.drop_last()) * 256 + bytes.last() as nat
    }
}

/// `256` to the power `n`.
spec fn pow256(n: nat) -> nat
    decreases n,
{
    if n == 0 {
        1
    } else {
        pow256((n - 1) as nat) * 256
    }
}

/// Shifting a byte in below a number of at most seven bytes appends it.
proof fn lemma_shift_in_byte(acc: u64, x: u8)
    by (bit_vector)
    requires
        acc < 0x100_0000_0000_0000,
    ensures
        (acc << 8u64) | (x as u64) == acc * 256 + x,
        acc * 256 + x < 0x1_0000_0000_0000_0000,
{
}

/// A checksum nibble sum: four terms of at most fifteen.
proof fn lemma_nibbles(r0: u8, r1: u8, r2: u8)
    by (bit_vector)
    ensures
        r0 >> 4u8 <= 15,
        r1 >> 4u8 <= 15,
        r2 >> 4u8 <= 15,
        (r2 >> 3u8) & 1u8 <= 1,
{
}

/// A validated command for the appliance. It can only be built by `new`,
/// which rejects invalid combinations of fields and normalizes the rest.
#[derive(Debug, Clone, Copy)]
pub struct EliosState {
    fan_speed: EliosFanSpeed,
    mode: EliosMode,
    temperature: Temperature,
    powered: bool,
    sleep: bool,
}

impl EliosState {
    /// What construction guarantees of every command.
    #[verifier::type_invariant]
    spec fn well_formed(self) -> bool {
        &&& self.mode is Fan ==> self.temperature == fan_mode_temperature()
        &&& self.mode !is Fan ==> in_settable_range(self.temperature)
        &&& self.mode.fan_forced_off() ==> self.fan_speed == EliosFanSpeed::Off
        &&& self.sleep ==> self.mode.sleep_available()
    }

    /// The stored fan speed.
    pub closed spec fn spec_fan_speed(&self) -> EliosFanSpeed {
        self.fan_speed
    }

    /// The stored mode.
    pub closed spec fn spec_mode(&self) -> EliosMode {
        self.mode
    }

    /// The stored temperature.
    pub closed spec fn spec_temperature(&self) -> Temperature {
        self.temperature
    }

    /// Whether the command switches the appliance on.
    pub closed spec fn spec_powered(&self) -> bool {
        self.powered
    }

    /// Whether the command asks for the sleep function.
    pub closed spec fn spec_sleep(&self) -> bool {
        self.sleep
    }

    /// Validates the requested fields and builds the command from them.
    ///
    /// Returns `None` when a temperature is given in fan-only mode, when none
    /// is given in another mode, or when a fan speed other than `Off` is asked
    /// for in automatic or dry mode. Otherwise the temperature is clamped to the
    /// settable range of its unit (fan-only mode stores a fixed value), the fan
    /// speed is forced to `Off` in automatic and dry mode and defaults to
    /// `Automatic` elsewhere, and sleep is kept only in cold, heat and automatic
    /// mode.
    pub fn new(
        fan_speed: Option<EliosFanSpeed>,
        mode: EliosMode,
        temperature: Option<Temperature>,
        powered: bool,
        sleep: bool,
    ) -> (r: Option<Self>)
        ensures
            r is None <==> rejected(fan_speed, mode, temperature),
            r matches Some(s) ==> {
                &&& s.fan_speed() == normalized_fan_speed(fan_speed, mode)
                &&& s.mode() == mode
                &&& s.temperature() == normalized_temperature(mode, temperature)
                &&& s.powered() == powered
                &&& s.sleep() == (sleep && mode.sleep_available())
            },
    {
        let is_fan = match mode {
            EliosMode::Fan => true,
            _ => false,
        };
        let temperature = if is_fan {
            if temperature.is_some() {
                return None;
            }
            Temperature::Celcius(MIN_CELCIUS + FAN_TEMPERATURE)
        } else {
            match temperature {
                None => {
                    return None;
                },
                Some(t) => clamp(t),
            }
        };

        let fan = match mode {
            EliosMode::Automatic | EliosMode::Dry => {
                match fan_speed {
                    Some(f) => {
                        if f != EliosFanSpeed::Off {
                            return None;
                        }
                    },
                    None => {},
                }
                EliosFanSpeed::Off
            },
            _ => match fan_speed {
                Some(f) => f,
                None => EliosFanSpeed::Automatic,
            },
        };

        let sleep_available = match mode {
            EliosMode::Cold | EliosMode::Heat | EliosMode::Automatic => true,
            _ => false,
        };
        let sleep = sleep && sleep_available;

        Some(EliosState { fan_speed: fan, mode, temperature, powered, sleep })
    }

    /// The five bytes that precede the checksum.
    fn as_raw_parts(self) -> (r: [u8; 5])
        ensures
            r@ == payload(self),
    {
        proof {
            use_type_invariant(&self);
        }
        let powered: u8 = if self.powered { 0x80 } else { 0 };
        let sleep: u8 = if self.sleep { 0x40 } else { 0 };
        let options: u8 = powered | sleep | (self.fan_speed.code() << 3) | self.mode.code();
        let offset: u8 = match self.temperature {
            Temperature::Celcius(temp) => temp - MIN_CELCIUS,
            Temperature::Fahrenheit(temp) => (temp - MIN_FAHRENHEIT) | FAHRENHEIT_FLAG,
        };
        let data: [u8; 5] = [HEADER, options, TEMPERATURE_MARKER | offset, TIMER_DISABLED, TIMER_DISABLED];
        assert(data@ =~= payload(self));
        data
    }

    /// The checksum of a payload; only its first three bytes count.
    fn checksum(data: &[u8; 5]) -> (r: u8)
        ensures
            r == checksum_of(data@[0], data@[1], data@[2]),
    {
        let r0: u8 = bitreverse(&data[0]);
        let r1: u8 = bitreverse(&data[1]);
        let r2: u8 = bitreverse(&data[2]);
        let extra: u8 = if (r1 >> 2) & 0b111 == 0 { 0b1000 } else { 0 };
        let xor_nibble: u8 = (r0 ^ r1 ^ r2 ^ 0b100 ^ extra) & 0xf;
        proof {
            lemma_nibbles(r0, r1, r2);
        }
        let sum_nibble: u8 = ((r0 >> 4) + (r1 >> 4) + (r2 >> 4) + ((r2 >> 3) & 1)) % 16;
        let value: u8 = (!sum_nibble) << 4 | xor_nibble;
        bitreverse(&value)
    }

    /// The frame as a 48-bit number: the five payload bytes, then the
    /// checksum, most significant byte first.
    pub fn as_value(self) -> (r: u64)
        ensures
            r == be_value(frame(self)),
    {
        let data = self.as_raw_parts();
        let checksum = EliosState::checksum(&data);
        let mut acc: u64 = 0;
        let mut i: usize = 0;
        while i < 5
            invariant
                i <= 5,
                data@ == payload(self),
                acc == be_value(data@.take(i as int)),
                acc < pow256(i as nat),
            decreases 5 - i,
        {
            proof {
                reveal_with_fuel(pow256, 6);
                assert(pow256(i as nat) <= pow256(4));
                lemma_shift_in_byte(acc, data@[i as int]);
                let p = pow256(i as nat);
                let x = data@[i as int];
                assert(acc * 256 + x < p * 256) by (nonlinear_arith)
                    requires
                        acc < p,
                        x < 256,
                ;
                assert(data@.take(i + 1).drop_last() =~= data@.take(i as int));
            }
            acc = (acc << 8) | data[i] as u64;
            i = i + 1;
        }
        proof {
            reveal_with_fuel(pow256, 6);
            lemma_shift_in_byte(acc, checksum);
            assert(data@.take(5) =~= data@);
            assert(frame(self).drop_last() =~= data@);
        }
        (acc << 8) | checksum as u64
    }

    /// The stored fan speed.
    #[verifier::when_used_as_spec(spec_fan_speed)]
    pub fn fan_speed(&self) -> (r: EliosFanSpeed)
        ensures
            r == self.spec_fan_speed(),
    {
        self.fan_speed
    }

    /// The stored mode.
    #[verifier::when_used_as_spec(spec_mode)]
    pub fn mode(&self) -> (r: EliosMode)
        ensures
            r == self.spec_mode(),
    {
        self.mode
    }

    /// The stored temperature.
    #[verifier::when_used_as_spec(spec_temperature)]
    pub fn temperature(&self) -> (r: Temperature)
        ensures
            r == self.spec_temperature(),
    {
        self.temperature
    }

    /// Whether the command switches the appliance on.
    #[verifier::when_used_as_spec(spec_powered)]
    pub fn powered(&self) -> (r: bool)
        ensures
            r == self.spec_powered(),
    {
        self.powered
    }

    /// Whether the command asks for the sleep function.
    #[verifier::when_used_as_spec(spec_sleep)]
    pub fn sleep(&self) -> (r: bool)
        ensures
            r == self.spec_sleep(),
    {
        self.sleep
    }
}

/// The timings, in microseconds, of the appliance's infrared protocol.
pub fn elios_ir() -> (r: InfraredProtocol)
    ensures
        r.leading_pulse() == 4350,
        r.leading_gap() == 4350,
        r.one_pulse() == 550,
        r.one_gap() == 1550,
        r.zero_pulse() == 550,
        r.zero_gap() == 550,
{
    InfraredProtocol::new(4350, 4350, 550, 1550, 550, 550)
}

/// In fan-only mode any given temperature is refused; in every other mode a
/// missing temperature is refused.
pub proof fn lemma_temperature_required_unless_fan(
    fan_speed: Option<EliosFanSpeed>,
    mode: EliosMode,
    t: Temperature,
)
    ensures
        mode is Fan ==> rejected(fan_speed, mode, Some(t)),
        mode !is Fan ==> rejected(fan_speed, mode, None),
{
}

/// A Celsius temperature is kept inside `[17, 30]` and moved to the nearer
/// bound outside it.
pub proof fn lemma_celcius_clamped(mode: EliosMode, t: u8)
    requires
        mode !is Fan,
    ensures
        MIN_CELCIUS <= t <= MAX_CELCIUS ==> normalized_temperature(mode, Some(Temperature::Celcius(t)))
            == Temperature::Celcius(t),
        t < MIN_CELCIUS ==> normalized_temperature(mode, Some(Temperature::Celcius(t)))
            == Temperature::Celcius(MIN_CELCIUS),
        t > MAX_CELCIUS ==> normalized_temperature(mode, Some(Temperature::Celcius(t)))
            == Temperature::Celcius(MAX_CELCIUS),
{
}

/// In automatic and dry mode an explicit fan speed other than `Off` is
/// refused; a missing one or `Off` is accepted, with a valid temperature, and
/// stored as `Off`.
pub proof fn lemma_fan_forced_off(fan_speed: Option<EliosFanSpeed>, mode: EliosMode, t: Temperature)
    requires
        mode is Automatic || mode is Dry,
    ensures
        (fan_speed matches Some(f) && f != EliosFanSpeed::Off) ==> rejected(fan_speed, mode, Some(t)),
        (fan_speed is None || fan_speed == Some(EliosFanSpeed::Off)) ==> {
            &&& !rejected(fan_speed, mode, Some(t))
            &&& normalized_fan_speed(fan_speed, mode) == EliosFanSpeed::Off
        },
{
}

/// A requested sleep is kept exactly in cold, heat and automatic mode.
pub proof fn lemma_sleep_only_where_available(mode: EliosMode, sleep: bool)
    ensures
        (sleep && mode.sleep_available()) == (sleep && (mode is Cold || mode is Heat
            || mode is Automatic)),
        (mode is Dry || mode is Fan) ==> !(sleep && mode.sleep_available()),
{
}

impl AsBitVec for EliosState {
    /// The frame as bits: the five payload bytes, then the checksum, the most
    /// significant bit of each byte first.
    fn as_bitvec(self) -> (r: BitVec)
        ensures
            bits_of(r) == bytes_to_bits(frame(self)),
    {
        let data = self.as_raw_parts();
        let checksum = EliosState::checksum(&data);
        let mut buffer: Vec<u8> = Vec::new();
        let mut i: usize = 0;
        while i < 5
            invariant
                i <= 5,
                data@ == payload(self),
                buffer@ == data@.take(i as int),
            decreases 5 - i,
        {
            buffer.push(data[i]);
            i = i + 1;
            assert(buffer@ =~= data@.take(i as int));
        }
        buffer.push(checksum);
        assert(buffer@ =~= frame(self));
        bits_from_bytes(buffer.as_slice())
    }
}

} // verus!
