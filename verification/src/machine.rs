use crate::config::ButtonConfig;
use crate::state::State;
use vstd::prelude::*;
use vstd::std_specs::cmp::PartialOrdIs;

verus! {

/// What one poll of the hardware saw.
#[derive(Debug, Clone, Copy, PartialEq, Eq)]
pub struct Sample<I, D> {
    /// Whether the pin read pressed, polarity already applied.
    pub pressed: bool,
    /// The reading of the clock.
    pub now: I,
    /// The time since the instant that the button's state carries, where it
    /// carries one.
    pub elapsed: Option<D>,
}

/// The part of a button that ticks and resets change: its mathematical model.
pub ghost struct Machine<I, D> {
    /// The current state.
    pub state: State<I>,
    /// Presses counted since the click streak began.
    pub clicks: nat,
    /// How long the last completed hold lasted.
    pub held: Option<D>,
}

/// `a >= b` in `D`'s own order.
pub open spec fn at_least<D: PartialOrd>(a: D, b: D) -> bool {
    a.is_ge(&b)
}

/// `elapsed >= threshold` in `D`'s own order. A missing reading reaches nothing.
pub open spec fn reached<D: PartialOrd>(elapsed: Option<D>, threshold: D) -> bool {
    elapsed matches Some(e) && at_least(e, threshold)
}

/// `elapsed < window` in `D`'s own order. A missing reading is within nothing.
pub open spec fn within<D: PartialOrd>(elapsed: Option<D>, window: D) -> bool {
    elapsed matches Some(e) && e.is_lt(&window)
}

impl<I, D> Machine<I, D> {
    /// A button before its first tick.
    pub open spec fn initial() -> Self {
        Machine { state: State::Unknown, clicks: 0, held: None }
    }

    /// The count of settled clicks: the raw count once the button is
    /// `Released`, zero while a gesture may still go on.
    pub open spec fn settled_clicks(self) -> nat {
        if self.state is Released {
            self.clicks
        } else {
            0
        }
    }

    /// What holds of every machine that ticks and resets can reach from
    /// [`Machine::initial`]: no hold is remembered during a gesture, a press
    /// in progress is counted, and a hold is not.
    pub open spec fn wf(self) -> bool {
        match self.state {
            State::Unknown => self.clicks == 0 && self.held is None,
            State::Down(_) | State::Pressed(_) | State::Up(_) => self.clicks >= 1 && self.held is None,
            State::Held(_) => self.clicks == 0 && self.held is None,
            State::Released => true,
        }
    }

    /// What a reset makes of the machine: it forgets the clicks and the hold,
    /// but only once the button is `Released`.
    pub open spec fn reset(self) -> Self {
        if self.state is Released {
            Machine { state: State::Released, clicks: 0, held: None }
        } else {
            self
        }
    }
}

/// What the thresholds say of a sample: the outcome of each comparison that
/// a tick may have to make.
pub ghost struct Verdict {
    /// The elapsed time has reached `debounce`.
    pub debounce_reached: bool,
    /// The elapsed time has reached `hold`.
    pub hold_reached: bool,
    /// The elapsed time is still below `release`.
    pub within_release: bool,
}

/// The verdict on a sample under a configuration, in `D`'s own order.
pub open spec fn judge<I, D: PartialOrd>(config: ButtonConfig<D>, s: Sample<I, D>) -> Verdict {
    Verdict {
        debounce_reached: reached(s.elapsed, config.debounce),
        hold_reached: reached(s.elapsed, config.hold),
        within_release: within(s.elapsed, config.release),
    }
}

/// The transition table: where the machine goes on a sample, given the
/// verdict on it.
pub open spec fn decide<I, D>(m: Machine<I, D>, s: Sample<I, D>, v: Verdict) -> Machine<I, D> {
    match m.state {
        State::Unknown => if s.pressed {
            Machine { state: State::Down(s.now), clicks: 1, held: m.held }
        } else {
            Machine { state: State::Released, clicks: m.clicks, held: m.held }
        },
        State::Down(t) => if !s.pressed {
            Machine { state: State::Released, clicks: m.clicks, held: m.held }
        } else if v.debounce_reached {
            Machine { state: State::Pressed(t), clicks: m.clicks, held: m.held }
        } else {
            m
        },
        State::Pressed(t) => if !s.pressed {
            Machine { state: State::Up(s.now), clicks: m.clicks, held: m.held }
        } else if v.hold_reached {
            Machine { state: State::Held(t), clicks: 0, held: m.held }
        } else {
            m
        },
        State::Up(t) => if !v.within_release {
            Machine { state: State::Released, clicks: m.clicks, held: m.held }
        } else if s.pressed {
            Machine { state: State::Down(s.now), clicks: m.clicks + 1, held: m.held }
        } else {
            m
        },
        State::Released => if s.pressed {
            Machine { state: State::Down(s.now), clicks: 1, held: None }
        } else {
            m
        },
        State::Held(t) => if s.pressed {
            m
        } else {
            Machine { state: State::Released, clicks: m.clicks, held: s.elapsed }
        },
    }
}

/// The transition that one tick makes, given what it saw: the row of the
/// table that the sample calls for under the configured durations.
pub open spec fn step<I, D: PartialOrd>(
    config: ButtonConfig<D>,
    m: Machine<I, D>,
    s: Sample<I, D>,
) -> Machine<I, D> {
    decide(m, s, judge(config, s))
}

/// The edges of the state diagram, and staying in place.
pub open spec fn follows<I>(from: State<I>, to: State<I>) -> bool {
    ||| to == from
    ||| from is Unknown && (to is Down || to is Released)
    ||| from is Down && (to is Pressed || to is Released)
    ||| from is Pressed && (to is Held || to is Up)
    ||| from is Up && (to is Down || to is Released)
    ||| from is Held && to is Released
    ||| from is Released && to is Down
}

/// A sample that gives the machine no reason to move: the pin reads the level
/// that the state stands for, and the elapsed time has passed no threshold
/// that the state waits for. No sample is quiet to a machine in `Unknown`.
pub open spec fn quiet<I, D: PartialOrd>(
    config: ButtonConfig<D>,
    m: Machine<I, D>,
    s: Sample<I, D>,
) -> bool {
    match m.state {
        State::Unknown => false,
        State::Down(_) => s.pressed && !reached(s.elapsed, config.debounce),
        State::Pressed(_) => s.pressed && !reached(s.elapsed, config.hold),
        State::Held(_) => s.pressed,
        State::Up(_) => !s.pressed && within(s.elapsed, config.release),
        State::Released => !s.pressed,
    }
}

/// Every sample of the sequence is quiet to `m`.
pub open spec fn all_quiet<I, D: PartialOrd>(
    config: ButtonConfig<D>,
    m: Machine<I, D>,
    samples: Seq<Sample<I, D>>,
) -> bool {
    forall|k: int| 0 <= k < samples.len() ==> quiet(config, m, #[trigger] samples[k])
}

/// The machine after a whole sequence of ticks, oldest sample first.
pub open spec fn run<I, D: PartialOrd>(
    config: ButtonConfig<D>,
    m: Machine<I, D>,
    samples: Seq<Sample<I, D>>,
) -> Machine<I, D>
    decreases samples.len(),
{
    if samples.len() == 0 {
        m
    } else {
        step(config, run(config, m, samples.drop_last()), samples.last())
    }
}

} // verus!
