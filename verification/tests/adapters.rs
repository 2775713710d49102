//! Configuration, polarity, pins, clocks and debounce strategies.

use std::time::{Duration, Instant};

use button_driver::config::{
    DEFAULT_DEBOUNCE_MICROS, DEFAULT_HOLD_MILLIS, DEFAULT_RELEASE_MILLIS,
};
use button_driver::debounce::{ClickBased, DebounceStrategy, NoDebounce, TimeBased};
use button_driver::pin_wrapper::level_or_low;
use button_driver::platform::{DefaultPlatform, Platform};
use button_driver::{Button, ButtonConfig, InstantProvider, Mode, PinWrapper, Sample, State};

struct Line(bool);

impl PinWrapper for Line {
    fn is_high(&mut self) -> bool {
        self.0
    }
}

#[test]
fn pullup_is_the_default_mode() {
    assert_eq!(Mode::default(), Mode::PullUp);
}

#[test]
fn mode_predicates_are_opposites() {
    assert!(Mode::PullUp.is_pullup());
    assert!(!Mode::PullUp.is_pulldown());
    assert!(Mode::PullDown.is_pulldown());
    assert!(!Mode::PullDown.is_pullup());
}

#[test]
fn pressed_is_the_level_that_differs_from_idle() {
    assert!(Mode::PullUp.reads_pressed(false));
    assert!(!Mode::PullUp.reads_pressed(true));
    assert!(Mode::PullDown.reads_pressed(true));
    assert!(!Mode::PullDown.reads_pressed(false));
}

#[test]
fn failed_pin_read_counts_as_low() {
    assert!(level_or_low::<()>(Ok(true)));
    assert!(!level_or_low::<()>(Ok(false)));
    assert!(!level_or_low(Err("bus fault")));
}

#[test]
fn is_low_is_the_opposite_reading() {
    assert!(Line(false).is_low());
    assert!(!Line(true).is_low());
}

#[test]
fn config_new_keeps_every_value() {
    let config = ButtonConfig::new(1u32, 2u32, 3u32, Mode::PullDown);
    assert_eq!(config.debounce, 1);
    assert_eq!(config.release, 2);
    assert_eq!(config.hold, 3);
    assert_eq!(config.mode, Mode::PullDown);
    assert_eq!(config, ButtonConfig { debounce: 1, release: 2, hold: 3, mode: Mode::PullDown });
}

#[test]
fn config_accepts_durations_in_any_order() {
    let config = ButtonConfig::new(9u8, 0u8, 3u8, Mode::PullUp);
    assert_eq!((config.debounce, config.release, config.hold), (9, 0, 3));
}

#[test]
fn default_constants_have_their_documented_values() {
    assert_eq!(DEFAULT_DEBOUNCE_MICROS, 900);
    assert_eq!(DEFAULT_RELEASE_MILLIS, 150);
    assert_eq!(DEFAULT_HOLD_MILLIS, 500);
}

#[test]
fn default_config_on_std_durations() {
    let config: ButtonConfig<Duration> = ButtonConfig::default();
    assert_eq!(config.debounce, Duration::from_micros(900));
    assert_eq!(config.release, Duration::from_millis(150));
    assert_eq!(config.hold, Duration::from_millis(500));
    assert_eq!(config.mode, Mode::PullUp);
    assert_eq!(config.debounce.as_nanos(), 900_000);
}

#[test]
fn default_config_on_embassy_durations() {
    let config: ButtonConfig<embassy_time::Duration> = ButtonConfig::default();
    assert_eq!(config.debounce, embassy_time::Duration::from_micros(900));
    assert_eq!(config.release, embassy_time::Duration::from_millis(150));
    assert_eq!(config.hold, embassy_time::Duration::from_millis(500));
    assert_eq!(config.mode, Mode::PullUp);
    assert_eq!(config.debounce.as_micros(), 900);
    assert_eq!(config.hold.as_millis(), 500);
}

#[test]
fn std_instant_is_a_time_source() {
    let start = <Instant as InstantProvider<Duration>>::now();
    let first = InstantProvider::elapsed(&start);
    while start.elapsed() < Duration::from_millis(2) {
        std::hint::spin_loop();
    }
    let second = InstantProvider::elapsed(&start);
    assert!(second >= first);
    assert!(second >= Duration::from_millis(2));
    assert!(second < Duration::from_secs(10));
}

#[test]
fn embassy_instant_is_a_time_source() {
    let start = <embassy_time::Instant as InstantProvider<embassy_time::Duration>>::now();
    let first = InstantProvider::elapsed(&start);
    while start.elapsed() < embassy_time::Duration::from_millis(2) {
        std::hint::spin_loop();
    }
    let second = InstantProvider::elapsed(&start);
    assert!(second >= first);
    assert!(second >= embassy_time::Duration::from_millis(2));
    assert!(second < embassy_time::Duration::from_secs(10));
}

#[test]
fn embassy_instant_ahead_of_the_clock_has_nothing_elapsed() {
    let ahead = embassy_time::Instant::MAX;
    assert_eq!(InstantProvider::elapsed(&ahead), embassy_time::Duration::from_ticks(0));
}

#[test]
fn default_platform_counts_from_its_making() {
    let platform = DefaultPlatform::default();
    let first = platform.duration_since_init();
    while platform.duration_since_init() < Duration::from_millis(2) {
        std::hint::spin_loop();
    }
    let second = platform.duration_since_init();
    assert!(first <= second);
    assert!(second >= Duration::from_millis(2));
    assert!(second < Duration::from_secs(10));
}

fn down_since(since: Instant) -> Button<Line, Instant> {
    let mut button = Button::new(
        Line(true),
        ButtonConfig::new(
            Duration::from_secs(3600),
            Duration::from_secs(7200),
            Duration::from_secs(9000),
            Mode::PullDown,
        ),
    );
    button.advance(Sample { pressed: true, now: since, elapsed: None });
    assert_eq!(*button.raw_state(), State::Down(since));
    button
}

#[test]
fn no_debounce_passes_every_button() {
    let fresh: Button<Line, Instant> = Button::new(Line(false), ButtonConfig::default());
    assert!(NoDebounce.is_debounced(&fresh));
    assert!(NoDebounce.is_debounced(&down_since(Instant::now())));
}

#[test]
fn time_based_keeps_its_duration() {
    let strategy = TimeBased::new(Duration::from_millis(7));
    assert_eq!(*strategy.debounce(), Duration::from_millis(7));
}

#[test]
fn time_based_covers_from_its_duration_on() {
    let strategy = TimeBased::new(10u32);
    assert!(!strategy.covers(&9));
    assert!(strategy.covers(&10));
    assert!(strategy.covers(&11));
}

#[test]
fn time_based_passes_a_press_that_has_lasted() {
    let button = down_since(Instant::now());
    assert!(TimeBased::new(Duration::ZERO).is_debounced(&button));
    assert!(!TimeBased::new(Duration::from_secs(3600)).is_debounced(&button));
}

#[test]
fn time_based_passes_only_a_button_that_is_down() {
    let mut button = down_since(Instant::now());
    let strategy = TimeBased::new(Duration::ZERO);
    assert!(strategy.is_debounced(&button));
    button.advance(Sample { pressed: false, now: Instant::now(), elapsed: Some(Duration::ZERO) });
    assert_eq!(*button.raw_state(), State::Released);
    assert!(!strategy.is_debounced(&button));
    let fresh: Button<Line, Instant> = Button::new(Line(false), ButtonConfig::default());
    assert!(!strategy.is_debounced(&fresh));
}

#[test]
fn click_based_keeps_its_count() {
    assert_eq!(ClickBased::new(4).clicks(), 4);
}

#[test]
fn click_based_passes_above_its_count() {
    let button = down_since(Instant::now());
    assert_eq!(button.raw_clicks(), 1);
    assert!(ClickBased::new(0).is_debounced(&button));
    assert!(!ClickBased::new(1).is_debounced(&button));
    assert!(!ClickBased::new(2).is_debounced(&button));
}
