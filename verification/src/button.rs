use crate::config::ButtonConfig;
use crate::instant::InstantProvider;
use crate::machine::{decide, judge, step, Machine, Sample, Verdict};
use crate::pin_wrapper::PinWrapper;
use crate::state::State;
use core::time::Duration;
use vstd::pervasive::cloned;
use vstd::prelude::*;
use vstd::std_specs::cmp::PartialOrdSpec;

verus! {

/// A debounced push button on one input pin.
///
/// The accessors report finished gestures: a click count is shown once the
/// button is `Released`. The `raw_` accessors show the count and the state
/// as they are.
#[derive(Clone, Debug)]
pub struct Button<P, I, D = Duration> {
    /// The pin that the button reads.
    pub pin: P,
    state: State<I>,
    clicks: usize,
    held: Option<D>,
    config: ButtonConfig<D>,
}

impl<P, I, D> View for Button<P, I, D> {
    type V = Machine<I, D>;

    closed spec fn view(&self) -> Machine<I, D> {
        Machine { state: self.state, clicks: self.clicks as nat, held: self.held }
    }
}

impl<P, I, D> Button<P, I, D> {
    /// The configuration that the button was made with.
    pub closed spec fn config(&self) -> ButtonConfig<D> {
        self.config
    }

    /// The pin as a value: the public field `pin`.
    pub closed spec fn pin(&self) -> P {
        self.pin
    }

    /// Returns the current state.
    pub fn raw_state(&self) -> (state: &State<I>)
        ensures
            *state == self@.state,
    {
        &self.state
    }

    /// Returns the current count of clicks, settled or not.
    pub fn raw_clicks(&self) -> (n: usize)
        ensures
            n == self@.clicks,
    {
        self.clicks
    }
}

impl<P, I, D> Button<P, I, D> where P: PinWrapper, I: InstantProvider<D> + PartialEq, D: Clone + Ord {
    /// Creates a new [`Button`] in the `Unknown` state, with nothing counted.
    pub fn new(pin: P, config: ButtonConfig<D>) -> (button: Self)
        ensures
            button@ == Machine::<I, D>::initial(),
            button.config() == config,
            button.pin() == pin,
    {
        Self { pin, config, state: State::Unknown, clicks: 0, held: None }
    }

    /// Returns the number of clicks that happened before the last release.
    /// Returns 0 while clicks are still being counted.
    pub fn clicks(&self) -> (n: usize)
        ensures
            n == self@.settled_clicks(),
    {
        if self.state.is_released() {
            self.clicks
        } else {
            0
        }
    }

    /// Forgets the clicks and the held time, but only once the button is
    /// `Released`: in the middle of a gesture nothing changes.
    pub fn reset(&mut self)
        ensures
            final(self)@ == old(self)@.reset(),
            final(self).config() == old(self).config(),
            final(self).pin() == old(self).pin(),
    {
        if self.state.is_released() {
            self.clicks = 0;
            self.held = None;
        }
    }

    /// Returns `true` if the button was pressed once before release.
    pub fn is_clicked(&self) -> (r: bool)
        ensures
            r == (self@.settled_clicks() == 1),
    {
        self.clicks() == 1
    }

    /// Returns `true` if the button was pressed twice before release.
    pub fn is_double_clicked(&self) -> (r: bool)
        ensures
            r == (self@.settled_clicks() == 2),
    {
        self.clicks() == 2
    }

    /// Returns `true` if the button was pressed three times before release.
    pub fn is_triple_clicked(&self) -> (r: bool)
        ensures
            r == (self@.settled_clicks() == 3),
    {
        self.clicks() == 3
    }

    /// Returns a clone of how long the last completed hold lasted, `None` if
    /// the button was not held since the last reset or is still being held.
    pub fn held_time(&self) -> (held: Option<D>)
        ensures
            held is Some <==> self@.held is Some,
            held matches Some(d) ==> cloned(self@.held->0, d),
    {
        match &self.held {
            Some(d) => Some(d.clone()),
            None => None,
        }
    }

    /// Returns how long the hold in progress has lasted so far: what the
    /// time source gives now as elapsed since the press. Returns `None` if
    /// the button is not `Held`.
    pub fn current_holding_time(&self) -> (holding: Option<D>)
        ensures
            holding is Some <==> self@.state is Held,
            self@.state matches State::Held(since) ==> holding matches Some(elapsed)
                && call_ensures(I::elapsed, (&since,), elapsed),
    {
        if let State::Held(since) = &self.state {
            Some(since.elapsed())
        } else {
            None
        }
    }

    /// Whether a tick can count one more press: always, except in `Up` with
    /// the counter at its upper limit.
    pub open spec fn can_count(&self) -> bool {
        self@.state is Up ==> self@.clicks < usize::MAX
    }

    /// Whether the times of `s` are what the time source gives to a button
    /// in `state`: an instant from `now`, and an elapsed time, from `elapsed`
    /// on the instant that the state carries, exactly if it carries one.
    pub open spec fn clock_gives(state: State<I>, s: Sample<I, D>) -> bool {
        &&& call_ensures(I::now, (), s.now)
        &&& match state.since() {
            Some(since) => s.elapsed matches Some(elapsed) && call_ensures(
                I::elapsed,
                (&since,),
                elapsed,
            ),
            None => s.elapsed is None,
        }
    }

    /// Polls the pin and the clock once, for [`Button::advance`].
    ///
    /// The sample holds the level that `is_high` gives for the pin, taken
    /// through the polarity, and the times that the time source gives. The
    /// button's state and counters stay as they are; only the pin may change.
    pub fn sample(&mut self) -> (s: Sample<I, D>)
        ensures
            Self::clock_gives(old(self)@.state, s),
            exists|pin: &mut P, high: bool|
                {
                    &&& *pin == old(self).pin()
                    &&& *final(pin) == final(self).pin()
                    &&& #[trigger] call_ensures(P::is_high, (pin,), high)
                    &&& s.pressed == old(self).config().mode.pressed_at(high)
                },
            final(self)@ == old(self)@,
            final(self).config() == old(self).config(),
    {
        let pressed = self.is_pin_pressed();
        let now = I::now();
        let elapsed = match &self.state {
            State::Down(t) | State::Pressed(t) | State::Up(t) | State::Held(t) => Some(t.elapsed()),
            State::Released | State::Unknown => None,
        };
        Sample { pressed, now, elapsed }
    }

    /// Moves the button by the one transition that `sample` calls for.
    ///
    /// Whatever `D`'s order does, the button moves by one row of the
    /// transition table; where the order is what its specification says, by
    /// the row that [`step`] picks.
    pub fn advance(&mut self, sample: Sample<I, D>)
        requires
            old(self).can_count(),
        ensures
            exists|v: Verdict| final(self)@ == #[trigger] decide(old(self)@, sample, v),
            D::obeys_partial_cmp_spec() ==> final(self)@ == step(old(self).config(), old(self)@, sample),
            final(self).config() == old(self).config(),
            final(self).pin() == old(self).pin(),
    {
        let ghost mut verdict = judge(self.config, sample);
        let Sample { pressed, now, elapsed } = sample;
        let mut state = State::Unknown;
        core::mem::swap(&mut state, &mut self.state);
        self.state = match state {
            State::Unknown => {
                if pressed {
                    self.clicks = 1;
                    State::Down(now)
                } else {
                    State::Released
                }
            },
            State::Down(t) => {
                if !pressed {
                    State::Released
                } else {
                    let reached = is_reached(&elapsed, &self.config.debounce);
                    proof {
                        verdict.debounce_reached = reached;
                    }
                    if reached {
                        State::Pressed(t)
                    } else {
                        State::Down(t)
                    }
                }
            },
            State::Pressed(t) => {
                if !pressed {
                    State::Up(now)
                } else {
                    let reached = is_reached(&elapsed, &self.config.hold);
                    proof {
                        verdict.hold_reached = reached;
                    }
                    if reached {
                        self.clicks = 0;
                        State::Held(t)
                    } else {
                        State::Pressed(t)
                    }
                }
            },
            State::Up(t) => {
                let within = is_within(&elapsed, &self.config.release);
                proof {
                    verdict.within_release = within;
                }
                if !within {
                    State::Released
                } else if pressed {
                    self.clicks += 1;
                    State::Down(now)
                } else {
                    State::Up(t)
                }
            },
            State::Released => {
                if pressed {
                    self.clicks = 1;
                    self.held = None;
                    State::Down(now)
                } else {
                    State::Released
                }
            },
            State::Held(t) => {
                if pressed {
                    State::Held(t)
                } else {
                    self.held = elapsed;
                    State::Released
                }
            },
        };
        assert(self@ == decide(old(self)@, sample, verdict));
    }

    /// Updates the button: polls the pin and the clock, and makes at most one
    /// transition. Call it as often as you can.
    ///
    /// What the poll sees is not known in advance, so the contract speaks of
    /// some sample: one that holds the level which `is_high` gives for the
    /// pin, taken through the polarity, and the times which the time source
    /// gives. The button moves by one row of the transition table, and where
    /// `D`'s order is what its specification says, it ends where [`step`]
    /// leads from where it was.
    pub fn tick(&mut self)
        requires
            old(self).can_count(),
        ensures
            exists|s: Sample<I, D>, v: Verdict, pin: &mut P, high: bool|
                {
                    &&& *pin == old(self).pin()
                    &&& *final(pin) == final(self).pin()
                    &&& #[trigger] call_ensures(P::is_high, (pin,), high)
                    &&& s.pressed == old(self).config().mode.pressed_at(high)
                    &&& Self::clock_gives(old(self)@.state, s)
                    &&& D::obeys_partial_cmp_spec() ==> v == judge(old(self).config(), s)
                    &&& final(self)@ == #[trigger] decide(old(self)@, s, v)
                },
            final(self).config() == old(self).config(),
    {
        let s = self.sample();
        let ghost (pin, high) = choose|pin: &mut P, high: bool|
            {
                &&& *pin == old(self).pin()
                &&& *final(pin) == self.pin()
                &&& #[trigger] call_ensures(P::is_high, (pin,), high)
                &&& s.pressed == old(self).config().mode.pressed_at(high)
            };
        self.advance(s);
        proof {
            let v = choose|v: Verdict| self@ == #[trigger] decide(old(self)@, s, v);
            let w = if D::obeys_partial_cmp_spec() {
                judge(old(self).config(), s)
            } else {
                v
            };
            assert(self@ == decide(old(self)@, s, w));
            assert(call_ensures(P::is_high, (pin,), high));
        }
    }

    /// Reads the pin and returns `true` if it reads released, without
    /// debouncing: the level that `is_high` gives for the pin, taken through
    /// the polarity. Only the pin may change.
    fn is_pin_released(&mut self) -> (released: bool)
        ensures
            final(self)@ == old(self)@,
            final(self).config() == old(self).config(),
            exists|pin: &mut P, high: bool|
                {
                    &&& *pin == old(self).pin()
                    &&& *final(pin) == final(self).pin()
                    &&& #[trigger] call_ensures(P::is_high, (pin,), high)
                    &&& released == !old(self).config().mode.pressed_at(high)
                },
    {
        let high = self.pin.is_high();
        !self.config.mode.reads_pressed(high)
    }

    /// Reads the pin and returns `true` if it reads pressed, without
    /// debouncing: the level that `is_high` gives for the pin, taken through
    /// the polarity. Only the pin may change.
    fn is_pin_pressed(&mut self) -> (pressed: bool)
        ensures
            final(self)@ == old(self)@,
            final(self).config() == old(self).config(),
            exists|pin: &mut P, high: bool|
                {
                    &&& *pin == old(self).pin()
                    &&& *final(pin) == final(self).pin()
                    &&& #[trigger] call_ensures(P::is_high, (pin,), high)
                    &&& pressed == old(self).config().mode.pressed_at(high)
                },
    {
        !self.is_pin_released()
    }
}

/// `elapsed >= threshold`, false where there is no reading.
fn is_reached<D: Ord>(elapsed: &Option<D>, threshold: &D) -> (r: bool)
    ensures
        D::obeys_partial_cmp_spec() ==> r == crate::machine::reached(*elapsed, *threshold),
{
    match elapsed {
        Some(e) => *e >= *threshold,
        None => false,
    }
}

/// `elapsed < window`, false where there is no reading.
fn is_within<D: Ord>(elapsed: &Option<D>, window: &D) -> (r: bool)
    ensures
        D::obeys_partial_cmp_spec() ==> r == crate::machine::within(*elapsed, *window),
{
    match elapsed {
        Some(e) => *e < *window,
        None => false,
    }
}

} // verus!
