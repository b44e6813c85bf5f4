//! The validated configuration values the core consumes: a positive idle
//! timeout in seconds, a positive fade duration in milliseconds, a default
//! brightness percentage, and the named input devices and LEDs. Reading and
//! decoding a configuration file happens outside the core; only values that
//! pass the constructors here reach it.

use vstd::prelude::*;

verus! {

/// Why a configuration value was rejected.
#[derive(Clone, Copy, PartialEq, Eq, Structural, Debug)]
pub enum ConfigError {
    /// A brightness percentage above 100.
    BrightnessOutOfRange,
    /// A zero idle timeout.
    ZeroTimeout,
    /// A zero fade duration.
    ZeroFade,
}

impl ConfigError {
    /// A human-readable description of the rejection.
    pub fn message(&self) -> (r: &'static str)
        ensures
            *self == ConfigError::BrightnessOutOfRange ==> r@ == "brightness must be in range 0-100"@,
            *self == ConfigError::ZeroTimeout ==> r@ == "timeout must be at least 1 second"@,
            *self == ConfigError::ZeroFade ==> r@ == "fade duration must be positive"@,
    {
        match self {
            ConfigError::BrightnessOutOfRange => "brightness must be in range 0-100",
            ConfigError::ZeroTimeout => "timeout must be at least 1 second",
            ConfigError::ZeroFade => "fade duration must be positive",
        }
    }
}

/// A brightness percentage, always in `0..=100`.
#[derive(Clone, Copy, Debug)]
pub struct Brightness {
    raw: u8,
}

impl Brightness {
    /// Every `Brightness` value holds a valid percentage.
    #[verifier::type_invariant]
    pub closed spec fn inv(self) -> bool {
        self.raw <= 100
    }

    /// The percentage this value holds.
    pub closed spec fn spec_raw(self) -> u8 {
        self.raw
    }

    /// Validates a raw percentage; values above 100 are rejected.
    pub fn new(raw: u8) -> (r: Result<Brightness, ConfigError>)
        ensures
            raw <= 100 ==> (r matches Ok(b) && b.spec_raw() == raw),
            raw > 100 ==> r == Err::<Brightness, ConfigError>(ConfigError::BrightnessOutOfRange),
    {
        if raw <= 100 {
            Ok(Brightness { raw })
        } else {
            Err(ConfigError::BrightnessOutOfRange)
        }
    }

    /// The percentage as a plain integer.
    pub fn raw(&self) -> (r: u8)
        ensures
            r == self.spec_raw(),
            r <= 100,
    {
        proof {
            use_type_invariant(self);
        }
        self.raw
    }
}

/// The default idle timeout, in seconds.
pub fn default_timeout() -> (r: u32)
    ensures
        r == 10,
{
    10
}

/// The default fade duration, in milliseconds.
pub fn default_fade_ms() -> (r: u32)
    ensures
        r == 100,
{
    100
}

/// The default brightness percentage.
pub fn default_brightness() -> (r: Brightness)
    ensures
        r.spec_raw() == 100,
{
    Brightness { raw: 100 }
}

/// The general settings: idle timeout, fade duration, default brightness.
/// The timeout and the fade duration are always positive.
#[derive(Clone, Copy, Debug)]
pub struct General {
    timeout: u32,
    fade_ms: u32,
    brightness: Brightness,
}

impl General {
    /// The timeout and the fade duration are positive.
    #[verifier::type_invariant]
    pub closed spec fn inv(self) -> bool {
        self.timeout >= 1 && self.fade_ms >= 1
    }

    /// The idle timeout, in seconds.
    pub closed spec fn spec_timeout(self) -> u32 {
        self.timeout
    }

    /// The fade duration, in milliseconds.
    pub closed spec fn spec_fade_ms(self) -> u32 {
        self.fade_ms
    }

    /// The default brightness percentage.
    pub closed spec fn spec_brightness(self) -> Brightness {
        self.brightness
    }

    /// Validates general settings; a zero timeout or a zero fade duration is
    /// rejected.
    pub fn new(timeout: u32, fade_ms: u32, brightness: Brightness) -> (r: Result<
        General,
        ConfigError,
    >)
        ensures
            timeout == 0 ==> r == Err::<General, ConfigError>(ConfigError::ZeroTimeout),
            timeout >= 1 && fade_ms == 0 ==> r == Err::<General, ConfigError>(
                ConfigError::ZeroFade,
            ),
            timeout >= 1 && fade_ms >= 1 ==> (r matches Ok(g) && g.spec_timeout() == timeout
                && g.spec_fade_ms() == fade_ms && g.spec_brightness() == brightness),
    {
        if timeout == 0 {
            Err(ConfigError::ZeroTimeout)
        } else if fade_ms == 0 {
            Err(ConfigError::ZeroFade)
        } else {
            Ok(General { timeout, fade_ms, brightness })
        }
    }

    /// The idle timeout, in seconds; always positive.
    pub fn timeout(&self) -> (r: u32)
        ensures
            r == self.spec_timeout(),
            r >= 1,
    {
        proof {
            use_type_invariant(self);
        }
        self.timeout
    }

    /// The fade duration, in milliseconds; always positive.
    pub fn fade_ms(&self) -> (r: u32)
        ensures
            r == self.spec_fade_ms(),
            r >= 1,
    {
        proof {
            use_type_invariant(self);
        }
        self.fade_ms
    }

    /// The default brightness percentage.
    pub fn brightness(&self) -> (r: Brightness)
        ensures
            r == self.spec_brightness(),
    {
        self.brightness
    }
}

impl Default for General {
    /// A ten-second timeout, a 100 ms fade, full brightness.
    fn default() -> (r: Self)
        ensures
            r.spec_timeout() == 10,
            r.spec_fade_ms() == 100,
            r.spec_brightness().spec_raw() == 100,
    {
        General { timeout: 10, fade_ms: 100, brightness: Brightness { raw: 100 } }
    }
}

/// A named input device whose activity keeps the backlight lit.
#[derive(Clone, Debug)]
pub struct Input {
    pub name: String,
}

/// A named LED, with an optional brightness override.
#[derive(Clone, Debug)]
pub struct Led {
    pub name: String,
    pub brightness: Option<Brightness>,
}

/// The whole validated configuration. Empty `inputs` means automatic device
/// detection; empty `leds` means automatic backlight detection.
#[derive(Debug)]
pub struct Config {
    pub general: General,
    pub inputs: Vec<Input>,
    pub leds: Vec<Led>,
}

impl Default for Config {
    /// Default general settings, automatic device and LED detection.
    fn default() -> (r: Self)
        ensures
            r.general.spec_timeout() == 10,
            r.general.spec_fade_ms() == 100,
            r.general.spec_brightness().spec_raw() == 100,
            r.inputs@.len() == 0,
            r.leds@.len() == 0,
    {
        Config {
            general: General { timeout: 10, fade_ms: 100, brightness: Brightness { raw: 100 } },
            inputs: Vec::new(),
            leds: Vec::new(),
        }
    }
}

} // verus!
