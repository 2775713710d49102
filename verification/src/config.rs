use core::time::Duration;
use vstd::prelude::*;

verus! {

/// Default debounce time of a button, in microseconds.
pub const DEFAULT_DEBOUNCE_MICROS: u64 = 900;

/// Default release time of a button, in milliseconds.
pub const DEFAULT_RELEASE_MILLIS: u64 = 150;

/// Default hold time of a button, in milliseconds.
pub const DEFAULT_HOLD_MILLIS: u64 = 500;

/// The timing and polarity of a button, fixed when the button is made.
///
/// As a general rule `debounce` is less than `release`, and `hold` is larger
/// than both. Nothing enforces this: any durations are accepted as they are.
#[derive(Debug, Clone, Copy, PartialEq, Eq)]
pub struct ButtonConfig<D> {
    /// How long the pin must read pressed before the press counts as real.
    pub debounce: D,
    /// How long after a release a new press still continues the click streak.
    pub release: D,
    /// How long a press must last to become a hold.
    pub hold: D,
    /// Which logic level means "pressed".
    pub mode: Mode,
}

impl<D> ButtonConfig<D> {
    /// Returns a new [`ButtonConfig`] with exactly the given values.
    pub fn new(debounce: D, release: D, hold: D, mode: Mode) -> (config: Self)
        ensures
            config == (ButtonConfig { debounce, release, hold, mode }),
    {
        Self { debounce, release, hold, mode }
    }
}

/// The duration that `core::time::Duration::from_micros` makes of a number
/// of microseconds.
pub uninterp spec fn std_micros(micros: u64) -> Duration;

/// The duration that `core::time::Duration::from_millis` makes of a number
/// of milliseconds.
pub uninterp spec fn std_millis(millis: u64) -> Duration;

/// `core::time::Duration::from_micros`, which is defined for every `u64`.
/// The result is only named: the same count always gives the same duration.
#[verifier::external_body]
fn duration_from_micros(micros: u64) -> (d: Duration)
    ensures
        d == std_micros(micros),
{
    Duration::from_micros(micros)
}

/// `core::time::Duration::from_millis`, which is defined for every `u64`.
/// The result is only named: the same count always gives the same duration.
#[verifier::external_body]
fn duration_from_millis(millis: u64) -> (d: Duration)
    ensures
        d == std_millis(millis),
{
    Duration::from_millis(millis)
}

impl Default for ButtonConfig<Duration> {
    /// 900 µs of debounce, 150 ms of release, 500 ms of hold, active low.
    fn default() -> (config: Self)
        ensures
            config == (ButtonConfig {
                debounce: std_micros(DEFAULT_DEBOUNCE_MICROS),
                release: std_millis(DEFAULT_RELEASE_MILLIS),
                hold: std_millis(DEFAULT_HOLD_MILLIS),
                mode: Mode::PullUp,
            }),
    {
        Self {
            debounce: duration_from_micros(DEFAULT_DEBOUNCE_MICROS),
            release: duration_from_millis(DEFAULT_RELEASE_MILLIS),
            hold: duration_from_millis(DEFAULT_HOLD_MILLIS),
            mode: Mode::default(),
        }
    }
}

/// A count up to which the conversions of `embassy_time::Duration` cannot
/// overflow, whatever the tick rate of the time driver.
const EMBASSY_MAX_COUNT: u64 = 1_000_000_000;

/// The duration that `embassy_time::Duration::from_micros` makes of a number
/// of microseconds.
pub uninterp spec fn embassy_micros(micros: u64) -> embassy_time::Duration;

/// The duration that `embassy_time::Duration::from_millis` makes of a number
/// of milliseconds.
pub uninterp spec fn embassy_millis(millis: u64) -> embassy_time::Duration;

/// `embassy_time::Duration::from_micros`, which multiplies the count by a
/// factor below 2^33 and rounds up: the counts admitted here cannot
/// overflow. The result is only named: the same count always gives the same
/// duration.
#[verifier::external_body]
fn embassy_from_micros(micros: u64) -> (d: embassy_time::Duration)
    requires
        micros <= EMBASSY_MAX_COUNT,
    ensures
        d == embassy_micros(micros),
{
    embassy_time::Duration::from_micros(micros)
}

/// `embassy_time::Duration::from_millis`, which multiplies the count by a
/// factor below 2^33 and rounds up: the counts admitted here cannot
/// overflow. The result is only named: the same count always gives the same
/// duration.
#[verifier::external_body]
fn embassy_from_millis(millis: u64) -> (d: embassy_time::Duration)
    requires
        millis <= EMBASSY_MAX_COUNT,
    ensures
        d == embassy_millis(millis),
{
    embassy_time::Duration::from_millis(millis)
}

impl Default for ButtonConfig<embassy_time::Duration> {
    /// 900 µs of debounce, 150 ms of release, 500 ms of hold, active low.
    fn default() -> (config: Self)
        ensures
            config == (ButtonConfig {
                debounce: embassy_micros(DEFAULT_DEBOUNCE_MICROS),
                release: embassy_millis(DEFAULT_RELEASE_MILLIS),
                hold: embassy_millis(DEFAULT_HOLD_MILLIS),
                mode: Mode::PullUp,
            }),
    {
        Self {
            debounce: embassy_from_micros(DEFAULT_DEBOUNCE_MICROS),
            release: embassy_from_millis(DEFAULT_RELEASE_MILLIS),
            hold: embassy_from_millis(DEFAULT_HOLD_MILLIS),
            mode: Mode::default(),
        }
    }
}

/// Which raw logic level of the pin means that the button is pressed.
#[derive(Debug, Clone, Copy, PartialEq, Eq)]
pub enum Mode {
    /// Active 0: the pin idles high and reads low while the button is pressed.
    PullUp,
    /// Active 1: the pin idles low and reads high while the button is pressed.
    PullDown,
}

impl Default for Mode {
    fn default() -> (mode: Self)
        ensures
            mode == Mode::PullUp,
    {
        Mode::PullUp
    }
}

impl Mode {
    /// Whether a raw pin level means "pressed" under this polarity: the
    /// level that differs from the idle one.
    pub open spec fn pressed_at(self, high: bool) -> bool {
        high != (self is PullUp)
    }

    /// Whether a raw pin level means "pressed" under this polarity.
    pub fn reads_pressed(&self, high: bool) -> (pressed: bool)
        ensures
            pressed == self.pressed_at(high),
    {
        high != self.is_pullup()
    }

    /// Is the button activated by logic zero?
    pub fn is_pullup(&self) -> (r: bool)
        ensures
            r == (*self is PullUp),
    {
        matches!(self, Mode::PullUp)
    }

    /// Is the button activated by logic one?
    pub fn is_pulldown(&self) -> (r: bool)
        ensures
            r == (*self is PullDown),
    {
        !self.is_pullup()
    }
}

} // verus!
