use vstd::prelude::*;

verus! {

/// Lowest settable temperature in degrees Celsius.
pub const MIN_CELCIUS: u8 = 17;

/// Highest settable temperature in degrees Celsius.
pub const MAX_CELCIUS: u8 = 30;

/// Lowest settable temperature in degrees Fahrenheit.
pub const MIN_FAHRENHEIT: u8 = 62;

/// Highest settable temperature in degrees Fahrenheit.
pub const MAX_FAHRENHEIT: u8 = 86;

/// A whole-degree temperature tagged with its unit.
#[derive(Debug, Clone, Copy, PartialEq, Eq, Structural)]
pub enum Temperature {
    Celcius(u8),
    Fahrenheit(u8),
}

/// `c` degrees Celsius in Fahrenheit, with integer division.
pub open spec fn fahrenheit_of(c: int) -> int {
    c * 9 / 5 + 32
}

/// `f` degrees Fahrenheit in Celsius, with integer division.
pub open spec fn celcius_of(f: int) -> int {
    (f - 32) * 5 / 9
}

/// `x` brought into `[lo, hi]`.
pub open spec fn clamp_int(x: int, lo: int, hi: int) -> int {
    if x < lo {
        lo
    } else if x > hi {
        hi
    } else {
        x
    }
}

/// The temperature brought into the settable range of its own unit.
pub open spec fn clamped(t: Temperature) -> Temperature {
    match t {
        Temperature::Celcius(d) => Temperature::Celcius(
            clamp_int(d as int, MIN_CELCIUS as int, MAX_CELCIUS as int) as u8,
        ),
        Temperature::Fahrenheit(d) => Temperature::Fahrenheit(
            clamp_int(d as int, MIN_FAHRENHEIT as int, MAX_FAHRENHEIT as int) as u8,
        ),
    }
}

/// The temperature lies in the settable range of its own unit.
pub open spec fn in_settable_range(t: Temperature) -> bool {
    match t {
        Temperature::Celcius(d) => MIN_CELCIUS <= d <= MAX_CELCIUS,
        Temperature::Fahrenheit(d) => MIN_FAHRENHEIT <= d <= MAX_FAHRENHEIT,
    }
}

impl Temperature {
    /// The same temperature in Fahrenheit; a Celsius value is converted with
    /// `F = C * 9 / 5 + 32`.
    pub fn as_fahrenheit(&self) -> (r: Self)
        requires
            self matches Temperature::Celcius(c) ==> fahrenheit_of(c as int) <= u8::MAX,
        ensures
            match *self {
                Temperature::Celcius(c) => r == Temperature::Fahrenheit(fahrenheit_of(c as int) as u8),
                Temperature::Fahrenheit(_) => r == *self,
            },
    {
        match self {
            Temperature::Celcius(temp) => {
                let wide: u16 = *temp as u16;
                Temperature::Fahrenheit((wide * 9 / 5 + 32) as u8)
            },
            Temperature::Fahrenheit(_) => *self,
        }
    }

    /// The same temperature in Celsius; a Fahrenheit value is converted with
    /// `C = (F - 32) * 5 / 9`.
    pub fn as_celcius(&self) -> (r: Self)
        requires
            self matches Temperature::Fahrenheit(f) ==> f >= 32,
        ensures
            match *self {
                Temperature::Celcius(_) => r == *self,
                Temperature::Fahrenheit(f) => r == Temperature::Celcius(celcius_of(f as int) as u8),
            },
    {
        match self {
            Temperature::Celcius(_) => *self,
            Temperature::Fahrenheit(temp) => {
                let wide: u16 = *temp as u16;
                Temperature::Celcius(((wide - 32) * 5 / 9) as u8)
            },
        }
    }
}

/// Brings a temperature into the settable range of its unit.
pub(crate) fn clamp(temperature: Temperature) -> (r: Temperature)
    ensures
        r == clamped(temperature),
        in_settable_range(r),
{
    match temperature {
        Temperature::Celcius(temp) => {
            let d: u8 = if temp > MAX_CELCIUS {
                MAX_CELCIUS
            } else if temp < MIN_CELCIUS {
                MIN_CELCIUS
            } else {
                temp
            };
            Temperature::Celcius(d)
        },
        Temperature::Fahrenheit(temp) => {
            let d: u8 = if temp > MAX_FAHRENHEIT {
                MAX_FAHRENHEIT
            } else if temp < MIN_FAHRENHEIT {
                MIN_FAHRENHEIT
            } else {
                temp
            };
            Temperature::Fahrenheit(d)
        },
    }
}

} // verus!
