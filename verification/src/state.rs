use vstd::prelude::*;

verus! {

/// Where the button is in its press/release cycle.
///
/// The four timed states carry the instant at which the current physical
/// event began: the press for `Down`, `Pressed` and `Held`, the release for
/// `Up`.
///
/// ```text
/// Unknown  => Down | Released
/// Down     => Pressed | Released
/// Pressed  => Held | Up
/// Up       => Down | Released
/// Held     => Released
/// Released => Down
/// ```
#[derive(Debug, Clone, Copy, PartialEq, Eq)]
pub enum State<I> {
    /// The pin has just read pressed; the press is not yet debounced.
    Down(I),
    /// Debounced press.
    Pressed(I),
    /// The pin has just read released; the click streak may still go on.
    Up(I),
    /// The press has lasted long enough to be a hold.
    Held(I),
    /// Fully released, idle.
    Released,
    /// Initial state, before the first tick.
    Unknown,
}

impl<I> State<I> {
    /// The instant the state carries, if it is a timed one.
    pub open spec fn since(self) -> Option<I> {
        match self {
            State::Down(t) | State::Pressed(t) | State::Up(t) | State::Held(t) => Some(t),
            State::Released | State::Unknown => None,
        }
    }
}

impl<I: PartialEq> State<I> {
    /// Returns `true` if the state is [`Down`](State::Down).
    pub fn is_down(&self) -> (r: bool)
        ensures
            r == (*self is Down),
    {
        matches!(self, State::Down(_))
    }

    /// Returns `true` if the state is [`Pressed`](State::Pressed).
    pub fn is_pressed(&self) -> (r: bool)
        ensures
            r == (*self is Pressed),
    {
        matches!(self, State::Pressed(_))
    }

    /// Returns `true` if the state is [`Up`](State::Up).
    pub fn is_up(&self) -> (r: bool)
        ensures
            r == (*self is Up),
    {
        matches!(self, State::Up(_))
    }

    /// Returns `true` if the state is [`Held`](State::Held).
    pub fn is_held(&self) -> (r: bool)
        ensures
            r == (*self is Held),
    {
        matches!(self, State::Held(_))
    }

    /// Returns `true` if the state is [`Released`](State::Released).
    pub fn is_released(&self) -> (r: bool)
        ensures
            r == (*self is Released),
    {
        matches!(self, State::Released)
    }

    /// Returns `true` if the state is [`Unknown`](State::Unknown).
    pub fn is_unknown(&self) -> (r: bool)
        ensures
            r == (*self is Unknown),
    {
        matches!(self, State::Unknown)
    }
}

} // verus!
