//! Gestures in real time, on the host's clock.

use std::sync::atomic::{AtomicBool, Ordering};
use std::sync::Arc;
use std::time::{Duration, Instant};

use button_driver::{Button, ButtonConfig, Mode, PinWrapper, State};

const CONFIG: ButtonConfig<Duration> = ButtonConfig {
    hold: Duration::from_millis(500),
    debounce: Duration::from_micros(700),
    release: Duration::from_millis(30),
    mode: Mode::PullDown,
};

/// Lets the given time pass.
fn sleep(time: Duration) {
    let start = Instant::now();
    while start.elapsed() < time {
        std::hint::spin_loop();
    }
}

#[derive(Debug, Default, Clone)]
struct MockPin(Arc<AtomicBool>);

impl PinWrapper for MockPin {
    fn is_high(&mut self) -> bool {
        self.0.load(Ordering::SeqCst)
    }
}

impl MockPin {
    /// Press the pin with debounce.
    fn press(&self) {
        self.0.store(true, Ordering::SeqCst);
        sleep(CONFIG.debounce);
    }

    /// Release the pin with debounce.
    fn release(&self) {
        self.0.store(false, Ordering::SeqCst);
        sleep(CONFIG.debounce);
    }
}

fn press_button(button: &mut Button<MockPin, Instant>) {
    button.pin.press();
    button.tick();
    assert!(matches!(button.raw_state(), State::Down(_)));

    sleep(CONFIG.debounce);
    button.tick();
}

fn release_button(button: &mut Button<MockPin, Instant>) {
    button.pin.release();
    button.tick();
}

fn hold_button(button: &mut Button<MockPin, Instant>) {
    press_button(button);
    sleep(CONFIG.hold);
    button.tick();
    release_button(button);
}

#[test]
fn test_sequential() {
    let pin = MockPin::default();

    let mut button = Button::new(pin, CONFIG);
    button.tick();
    assert_eq!(*button.raw_state(), State::Released);

    // single click
    {
        press_button(&mut button);
        assert!(matches!(button.raw_state(), State::Pressed(_)));

        release_button(&mut button);
        assert!(matches!(button.raw_state(), State::Up(_)));

        sleep(CONFIG.release);
        button.tick();
        assert!(matches!(button.raw_state(), State::Released));

        assert_eq!(button.clicks(), 1);
        button.reset();
    }

    // double click
    {
        press_button(&mut button);
        release_button(&mut button);

        press_button(&mut button);
        release_button(&mut button);

        sleep(CONFIG.release);
        button.tick();

        assert_eq!(button.clicks(), 2);
        button.reset();
    }

    // two holds, the first after two clicks
    {
        press_button(&mut button);
        release_button(&mut button);

        press_button(&mut button);
        release_button(&mut button);

        press_button(&mut button);
        assert_eq!(button.raw_clicks(), 3);
        sleep(CONFIG.hold);
        button.tick();
        assert!(matches!(button.raw_state(), State::Held(_)));
        assert_eq!(button.raw_clicks(), 0);
        assert!(button.current_holding_time().unwrap() >= CONFIG.hold);
        release_button(&mut button);
        button.tick();
        assert!(button.held_time().unwrap() >= CONFIG.hold);

        hold_button(&mut button);

        sleep(CONFIG.release);
        button.tick();

        assert_eq!(*button.raw_state(), State::Released);
        assert_eq!(button.clicks(), 0);
        assert!(button.held_time().unwrap() >= CONFIG.hold);
        button.reset();
        assert_eq!(button.held_time(), None);
    }
}

#[test]
fn real_click_with_the_default_configuration() {
    let config = ButtonConfig { mode: Mode::PullDown, ..ButtonConfig::default() };
    let mut button: Button<MockPin, Instant> = Button::new(MockPin::default(), config);
    button.tick();
    assert_eq!(*button.raw_state(), State::Released);
    button.pin.0.store(true, Ordering::SeqCst);
    button.tick();
    assert!(button.raw_state().is_down());
    sleep(Duration::from_millis(2));
    button.tick();
    assert!(button.raw_state().is_pressed());
    button.pin.0.store(false, Ordering::SeqCst);
    button.tick();
    assert!(button.raw_state().is_up());
    assert_eq!(button.clicks(), 0);
    sleep(Duration::from_millis(160));
    button.tick();
    assert!(button.raw_state().is_released());
    assert!(button.is_clicked());
    assert_eq!(button.held_time(), None);
}

#[test]
fn real_click_on_the_embassy_clock() {
    let config = ButtonConfig::new(
        embassy_time::Duration::from_millis(1),
        embassy_time::Duration::from_millis(100),
        embassy_time::Duration::from_millis(5_000),
        Mode::PullUp,
    );
    let pin = MockPin::default();
    pin.0.store(true, Ordering::SeqCst);
    let mut button: Button<MockPin, embassy_time::Instant, embassy_time::Duration> =
        Button::new(pin, config);
    button.tick();
    assert_eq!(*button.raw_state(), State::Released);
    button.pin.0.store(false, Ordering::SeqCst);
    let before = embassy_time::Instant::now();
    button.tick();
    let after = embassy_time::Instant::now();
    match *button.raw_state() {
        State::Down(at) => assert!(before <= at && at <= after),
        other => panic!("not down: {:?}", other),
    }
    sleep(Duration::from_millis(3));
    button.tick();
    assert!(button.raw_state().is_pressed());
    button.pin.0.store(true, Ordering::SeqCst);
    button.tick();
    assert!(button.raw_state().is_up());
    sleep(Duration::from_millis(110));
    button.tick();
    assert!(button.raw_state().is_released());
    assert_eq!(button.clicks(), 1);
}

#[test]
fn real_hold_on_the_embassy_clock() {
    let hold = embassy_time::Duration::from_millis(50);
    let config = ButtonConfig::new(
        embassy_time::Duration::from_millis(1),
        embassy_time::Duration::from_millis(20),
        hold,
        Mode::PullDown,
    );
    let mut button: Button<MockPin, embassy_time::Instant, embassy_time::Duration> =
        Button::new(MockPin::default(), config);
    button.pin.0.store(true, Ordering::SeqCst);
    button.tick();
    sleep(Duration::from_millis(3));
    button.tick();
    assert!(button.raw_state().is_pressed());
    sleep(Duration::from_millis(60));
    button.tick();
    assert!(button.raw_state().is_held());
    let first = button.current_holding_time().unwrap();
    assert!(first >= hold);
    sleep(Duration::from_millis(2));
    let second = button.current_holding_time().unwrap();
    assert!(second > first);
    button.pin.0.store(false, Ordering::SeqCst);
    button.tick();
    assert!(button.raw_state().is_released());
    assert!(button.held_time().unwrap() >= second);
    assert_eq!(button.clicks(), 0);
}
