use crate::button::Button;
use crate::instant::InstantProvider;
use crate::machine::at_least;
use crate::state::State;
use vstd::prelude::*;
use vstd::std_specs::cmp::PartialOrdSpec;

verus! {

/// A rule that says whether the press in progress counts as debounced.
pub trait DebounceStrategy<P, I, D>: Sized {
    /// Returns `true` if the current press of `button` is considered debounced.
    fn is_debounced(&self, button: &Button<P, I, D>) -> bool;
}

/// No software debounce: every press counts at once. Useful where the pin is
/// debounced in hardware.
#[derive(Debug, Clone, Copy, PartialEq, Eq, PartialOrd, Ord)]
pub struct NoDebounce;

impl<P, I, D> DebounceStrategy<P, I, D> for NoDebounce {
    fn is_debounced(&self, _button: &Button<P, I, D>) -> (debounced: bool)
        ensures
            debounced,
    {
        true
    }
}

/// The classic rule: a press counts once it has lasted for a set time.
#[derive(Debug, Clone, Copy, PartialEq, Eq, PartialOrd, Ord)]
pub struct TimeBased<D> {
    debounce: D,
}

impl<D> View for TimeBased<D> {
    type V = D;

    /// The time that a press must last.
    closed spec fn view(&self) -> D {
        self.debounce
    }
}

impl<D> TimeBased<D> {
    /// Creates a new [`TimeBased`] debounce.
    pub fn new(debounce: D) -> (strategy: Self)
        ensures
            strategy@ == debounce,
    {
        Self { debounce }
    }

    /// Returns the debounce duration.
    pub fn debounce(&self) -> (debounce: &D)
        ensures
            *debounce == self@,
    {
        &self.debounce
    }
}

impl<D: Ord> TimeBased<D> {
    /// Whether a press that has lasted for `elapsed` counts as debounced.
    pub fn covers(&self, elapsed: &D) -> (covered: bool)
        ensures
            D::obeys_partial_cmp_spec() ==> covered == at_least(*elapsed, self@),
    {
        *elapsed >= self.debounce
    }
}

impl<P, I: InstantProvider<D>, D: Ord> DebounceStrategy<P, I, D> for TimeBased<D> {
    /// `false` for a button that is not `Down`. For one that is, reads the
    /// time source once and says whether the time that it gives as elapsed
    /// since the press is covered.
    fn is_debounced(&self, button: &Button<P, I, D>) -> (debounced: bool)
        ensures
            !(button@.state is Down) ==> !debounced,
            button@.state matches State::Down(since) ==> exists|elapsed: D|
                {
                    &&& #[trigger] call_ensures(I::elapsed, (&since,), elapsed)
                    &&& D::obeys_partial_cmp_spec() ==> debounced == at_least(elapsed, self@)
                },
    {
        match button.raw_state() {
            State::Down(since) => {
                let elapsed = since.elapsed();
                self.covers(&elapsed)
            },
            _ => false,
        }
    }
}

/// A rule by count: a press counts once the streak has more presses than a
/// set number. The raw count includes the press in progress from its edge on.
#[derive(Debug, Clone, Copy, PartialEq, Eq, PartialOrd, Ord)]
pub struct ClickBased {
    clicks: usize,
}

impl View for ClickBased {
    type V = nat;

    /// The number of presses that do not count.
    closed spec fn view(&self) -> nat {
        self.clicks as nat
    }
}

impl ClickBased {
    /// Creates a new [`ClickBased`] debounce.
    pub fn new(clicks: usize) -> (strategy: Self)
        ensures
            strategy@ == clicks,
    {
        Self { clicks }
    }

    /// Returns the number of presses that do not count.
    pub fn clicks(&self) -> (clicks: usize)
        ensures
            clicks == self@,
    {
        self.clicks
    }
}

impl<P, I, D> DebounceStrategy<P, I, D> for ClickBased {
    fn is_debounced(&self, button: &Button<P, I, D>) -> (debounced: bool)
        ensures
            debounced == (button@.clicks > self@),
    {
        button.raw_clicks() > self.clicks
    }
}

} // verus!
