//! Debouncing and gesture recognition for a single polled push button.
//!
//! A [`Button`] is stepped by [`Button::tick`], which polls the pin and the
//! time source once and moves the state machine by at most one transition.
//! What a tick does with what it saw is the function [`machine::step`]; the
//! module [`laws`] proves what follows from it for whole gestures.

pub mod button;
pub mod config;
pub mod debounce;
pub mod instant;
pub mod laws;
pub mod machine;
pub mod pin_wrapper;
pub mod platform;
pub mod state;

pub use button::Button;
pub use config::{ButtonConfig, Mode};
pub use instant::InstantProvider;
pub use machine::{Machine, Sample};
pub use pin_wrapper::PinWrapper;
pub use state::State;
