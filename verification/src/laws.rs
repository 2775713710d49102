//! What follows from [`step`] for whole gestures.
//!
//! A gesture is a sequence of samples, one per tick. The laws hold however
//! many ticks fall into each phase of a gesture and whatever the configured
//! durations are; they speak of elapsed times only through `D`'s own order.

use crate::config::ButtonConfig;
use crate::machine::{
    all_quiet, at_least, decide, follows, judge, quiet, reached, run, step, within, Machine, Sample,
    Verdict,
};
use crate::state::State;
use vstd::prelude::*;

verus! {

/// Running one sample is one step.
pub proof fn lemma_run_one<I, D: PartialOrd>(
    config: ButtonConfig<D>,
    m: Machine<I, D>,
    s: Sample<I, D>,
)
    ensures
        run(config, m, seq![s]) == step(config, m, s),
{
    assert(seq![s].drop_last() =~= Seq::<Sample<I, D>>::empty());
    assert(run(config, m, seq![s].drop_last()) == m);
}

/// Running two sequences one after the other is running their concatenation.
pub proof fn lemma_run_concat<I, D: PartialOrd>(
    config: ButtonConfig<D>,
    m: Machine<I, D>,
    first: Seq<Sample<I, D>>,
    then: Seq<Sample<I, D>>,
)
    ensures
        run(config, m, first + then) == run(config, run(config, m, first), then),
    decreases then.len(),
{
    if then.len() == 0 {
        assert(first + then =~= first);
    } else {
        lemma_run_concat(config, m, first, then.drop_last());
        assert((first + then).drop_last() =~= first + then.drop_last());
        assert((first + then).last() == then.last());
    }
}

/// Every row of the table follows an edge of the state diagram or stays in
/// place: a tick makes at most one transition, and never one that the
/// diagram lacks, whatever it saw and however the durations compare.
pub proof fn lemma_step_follows_diagram<I, D: PartialOrd>(
    config: ButtonConfig<D>,
    m: Machine<I, D>,
    s: Sample<I, D>,
    v: Verdict,
)
    ensures
        follows(m.state, decide(m, s, v).state),
        follows(m.state, step(config, m, s).state),
{
}

/// Steps keep a well-formed machine well-formed, whatever the tick saw and
/// however the durations compare.
pub proof fn lemma_step_keeps_wf<I, D: PartialOrd>(
    config: ButtonConfig<D>,
    m: Machine<I, D>,
    s: Sample<I, D>,
    v: Verdict,
)
    requires
        m.wf(),
    ensures
        decide(m, s, v).wf(),
        step(config, m, s).wf(),
{
}

/// Resets keep a well-formed machine well-formed.
pub proof fn lemma_reset_keeps_wf<I, D>(m: Machine<I, D>)
    requires
        m.wf(),
    ensures
        m.reset().wf(),
{
}

/// Whole runs keep a well-formed machine well-formed.
pub proof fn lemma_run_keeps_wf<I, D: PartialOrd>(
    config: ButtonConfig<D>,
    m: Machine<I, D>,
    samples: Seq<Sample<I, D>>,
)
    requires
        m.wf(),
    ensures
        run(config, m, samples).wf(),
    decreases samples.len(),
{
    if samples.len() > 0 {
        lemma_run_keeps_wf(config, m, samples.drop_last());
        lemma_step_keeps_wf(
            config,
            run(config, m, samples.drop_last()),
            samples.last(),
            judge(config, samples.last()),
        );
    }
}

/// However many ticks see the pin at the level that the state stands for,
/// with no threshold passed, the machine stays exactly as it is: ticking
/// more often never fires a transition.
pub proof fn lemma_quiet_ticks_change_nothing<I, D: PartialOrd>(
    config: ButtonConfig<D>,
    m: Machine<I, D>,
    samples: Seq<Sample<I, D>>,
)
    requires
        all_quiet(config, m, samples),
    ensures
        run(config, m, samples) == m,
    decreases samples.len(),
{
    if samples.len() > 0 {
        lemma_quiet_ticks_change_nothing(config, m, samples.drop_last());
        assert(quiet(config, m, samples[samples.len() - 1]));
    }
}

/// A second reset changes nothing more than the first.
pub proof fn lemma_reset_is_idempotent<I, D>(m: Machine<I, D>)
    ensures
        m.reset().reset() == m.reset(),
{
}

/// A reset in the middle of a gesture erases nothing.
pub proof fn lemma_reset_spares_a_gesture<I, D>(m: Machine<I, D>)
    requires
        !(m.state is Released),
    ensures
        m.reset() == m,
{
}

/// A first tick that finds the pin already pressed leads from `Unknown` to
/// `Down`, whatever the clock reads: the press still has to be debounced.
pub proof fn lemma_first_tick_pressed<I, D: PartialOrd>(config: ButtonConfig<D>, s: Sample<I, D>)
    requires
        s.pressed,
    ensures
        step(config, Machine::initial(), s) == (Machine::<I, D> {
            state: State::Down(s.now),
            clicks: 1,
            held: None,
        }),
{
}

/// The only way into `Pressed` is from `Down`, with the pin still pressed and
/// the debounce time reached.
pub proof fn lemma_pressed_only_after_debounce<I, D: PartialOrd>(
    config: ButtonConfig<D>,
    m: Machine<I, D>,
    s: Sample<I, D>,
)
    requires
        step(config, m, s).state is Pressed,
        !(m.state is Pressed),
    ensures
        m.state is Down,
        s.pressed,
        reached(s.elapsed, config.debounce),
        step(config, m, s).state.since() == m.state.since(),
{
}

/// Whether the machine takes `edge` as the start of a press: the pin reads
/// pressed, and the machine is idle or still inside the release window of
/// the press before.
pub open spec fn takes_press<I, D: PartialOrd>(
    config: ButtonConfig<D>,
    m: Machine<I, D>,
    edge: Sample<I, D>,
) -> bool {
    &&& edge.pressed
    &&& m.state is Unknown || m.state is Released || (m.state is Up && within(
        edge.elapsed,
        config.release,
    ))
}

/// The machine right after it has taken `edge` as the start of a press: the
/// press is counted at once, as the first of a streak or as one more.
pub open spec fn after_press<I, D>(m: Machine<I, D>, edge: Sample<I, D>) -> Machine<I, D> {
    Machine {
        state: State::Down(edge.now),
        clicks: if m.state is Up {
            m.clicks + 1
        } else {
            1
        },
        held: if m.state is Released {
            None
        } else {
            m.held
        },
    }
}

/// A press is counted on its edge, before it is debounced.
pub proof fn lemma_press_is_counted_on_its_edge<I, D: PartialOrd>(
    config: ButtonConfig<D>,
    m: Machine<I, D>,
    edge: Sample<I, D>,
)
    requires
        takes_press(config, m, edge),
    ensures
        step(config, m, edge) == after_press(m, edge),
{
}

/// The samples of a press that is released before it is debounced.
pub ghost struct ShortPress<I, D> {
    /// The first sample that reads pressed.
    pub edge: Sample<I, D>,
    /// The samples while the press lasts.
    pub bouncing: Seq<Sample<I, D>>,
    /// The first sample that reads released again.
    pub release: Sample<I, D>,
}

impl<I, D: PartialOrd> ShortPress<I, D> {
    /// The samples in the order of their ticks.
    pub open spec fn samples(self) -> Seq<Sample<I, D>> {
        seq![self.edge] + self.bouncing + seq![self.release]
    }

    /// The pin reads pressed, never for as long as `debounce`, then released.
    pub open spec fn fits(self, config: ButtonConfig<D>) -> bool {
        &&& self.edge.pressed
        &&& forall|k: int|
            0 <= k < self.bouncing.len() ==> {
                &&& (#[trigger] self.bouncing[k]).pressed
                &&& !reached(self.bouncing[k].elapsed, config.debounce)
            }
        &&& !self.release.pressed
    }
}

/// A press shorter than `debounce` never reaches `Pressed`: the machine goes
/// to `Down`, stays there, and falls back to `Released`. The press stays
/// counted all the same.
pub proof fn lemma_short_press_is_never_pressed<I, D: PartialOrd>(
    config: ButtonConfig<D>,
    m: Machine<I, D>,
    press: ShortPress<I, D>,
)
    requires
        takes_press(config, m, press.edge),
        press.fits(config),
    ensures
        forall|n: int|
            0 <= n <= press.samples().len() ==> !(#[trigger] run(
                config,
                m,
                press.samples().subrange(0, n),
            ).state is Pressed),
        run(config, m, press.samples()) == (Machine {
            state: State::Released,
            ..after_press(m, press.edge)
        }),
{
    let down = after_press(m, press.edge);
    let trace = press.samples();
    assert forall|n: int| 0 <= n <= trace.len() implies !(#[trigger] run(
        config,
        m,
        trace.subrange(0, n),
    ).state is Pressed) by {
        if n == 0 {
            assert(trace.subrange(0, n) =~= Seq::empty());
        } else if n < trace.len() {
            let seen = press.bouncing.subrange(0, n - 1);
            assert(trace.subrange(0, n) =~= seq![press.edge] + seen);
            lemma_run_concat(config, m, seq![press.edge], seen);
            lemma_run_one(config, m, press.edge);
            assert(all_quiet(config, down, seen));
            lemma_quiet_ticks_change_nothing(config, down, seen);
        } else {
            assert(trace.subrange(0, n) =~= trace);
            lemma_short_press_ends_released(config, m, press);
        }
    }
    lemma_short_press_ends_released(config, m, press);
}

proof fn lemma_short_press_ends_released<I, D: PartialOrd>(
    config: ButtonConfig<D>,
    m: Machine<I, D>,
    press: ShortPress<I, D>,
)
    requires
        takes_press(config, m, press.edge),
        press.fits(config),
    ensures
        run(config, m, press.samples()) == (Machine {
            state: State::Released,
            ..after_press(m, press.edge)
        }),
{
    let down = after_press(m, press.edge);
    lemma_run_concat(config, m, seq![press.edge] + press.bouncing, seq![press.release]);
    lemma_run_concat(config, m, seq![press.edge], press.bouncing);
    lemma_run_one(config, m, press.edge);
    assert(all_quiet(config, down, press.bouncing));
    lemma_quiet_ticks_change_nothing(config, down, press.bouncing);
    lemma_run_one(config, down, press.release);
}

/// While no tick sees the pin pressed, a button with nothing counted has
/// nothing to report.
pub proof fn lemma_idle_ticks_count_nothing<I, D: PartialOrd>(
    config: ButtonConfig<D>,
    m: Machine<I, D>,
    samples: Seq<Sample<I, D>>,
)
    requires
        m.state is Unknown || m.state is Released,
        m.clicks == 0,
        forall|k: int| 0 <= k < samples.len() ==> !(#[trigger] samples[k]).pressed,
    ensures
        run(config, m, samples).clicks == 0,
        run(config, m, samples).settled_clicks() == 0,
        run(config, m, samples).held == m.held,
        samples.len() > 0 ==> run(config, m, samples).state is Released,
    decreases samples.len(),
{
    if samples.len() > 0 {
        lemma_idle_ticks_count_nothing(config, m, samples.drop_last());
        assert(!samples[samples.len() - 1].pressed);
        if samples.len() == 1 {
            assert(samples.drop_last() =~= Seq::empty());
        }
    }
}

/// The samples of a press that is debounced and released before it becomes a
/// hold: one click.
pub ghost struct Click<I, D> {
    /// The first sample that reads pressed.
    pub edge: Sample<I, D>,
    /// The samples before the debounce time is reached.
    pub bouncing: Seq<Sample<I, D>>,
    /// The first sample that reaches the debounce time.
    pub confirm: Sample<I, D>,
    /// The samples while the debounced press lasts.
    pub holding: Seq<Sample<I, D>>,
    /// The first sample that reads released again.
    pub release: Sample<I, D>,
}

impl<I, D: PartialOrd> Click<I, D> {
    /// The samples in the order of their ticks.
    pub open spec fn samples(self) -> Seq<Sample<I, D>> {
        seq![self.edge] + self.bouncing + seq![self.confirm] + self.holding + seq![self.release]
    }

    /// The pin reads pressed for at least `debounce`, is not seen pressed for
    /// as long as `hold` once the press is debounced, and then reads released.
    pub open spec fn fits(self, config: ButtonConfig<D>) -> bool {
        &&& self.edge.pressed
        &&& forall|k: int|
            0 <= k < self.bouncing.len() ==> {
                &&& (#[trigger] self.bouncing[k]).pressed
                &&& !reached(self.bouncing[k].elapsed, config.debounce)
            }
        &&& self.confirm.pressed
        &&& reached(self.confirm.elapsed, config.debounce)
        &&& forall|k: int|
            0 <= k < self.holding.len() ==> {
                &&& (#[trigger] self.holding[k]).pressed
                &&& !reached(self.holding[k].elapsed, config.hold)
            }
        &&& !self.release.pressed
    }
}

/// Samples with the pin released, each within the release window: the wait
/// after a click, while the streak may still go on.
pub open spec fn waits<I, D: PartialOrd>(
    config: ButtonConfig<D>,
    samples: Seq<Sample<I, D>>,
) -> bool {
    forall|k: int|
        0 <= k < samples.len() ==> {
            &&& !(#[trigger] samples[k]).pressed
            &&& within(samples[k].elapsed, config.release)
        }
}

/// A click leaves the machine in `Up` since its release, with the press
/// counted and nothing else changed.
pub proof fn lemma_click_is_counted<I, D: PartialOrd>(
    config: ButtonConfig<D>,
    m: Machine<I, D>,
    click: Click<I, D>,
)
    requires
        takes_press(config, m, click.edge),
        click.fits(config),
    ensures
        run(config, m, click.samples()) == (Machine {
            state: State::Up(click.release.now),
            ..after_press(m, click.edge)
        }),
{
    let down = after_press(m, click.edge);
    let pressed = Machine { state: State::Pressed(click.edge.now), ..down };
    let a = seq![click.edge];
    let b = a + click.bouncing;
    let c = b + seq![click.confirm];
    let d = c + click.holding;
    lemma_run_concat(config, m, d, seq![click.release]);
    lemma_run_concat(config, m, c, click.holding);
    lemma_run_concat(config, m, b, seq![click.confirm]);
    lemma_run_concat(config, m, a, click.bouncing);
    lemma_run_one(config, m, click.edge);
    assert(all_quiet(config, down, click.bouncing));
    lemma_quiet_ticks_change_nothing(config, down, click.bouncing);
    lemma_run_one(config, down, click.confirm);
    assert(all_quiet(config, pressed, click.holding));
    lemma_quiet_ticks_change_nothing(config, pressed, click.holding);
    lemma_run_one(config, pressed, click.release);
}

/// A streak settles on the first tick that finds the release window over,
/// whatever the pin reads then: the count becomes visible as it is.
pub proof fn lemma_streak_settles<I, D: PartialOrd>(
    config: ButtonConfig<D>,
    m: Machine<I, D>,
    waiting: Seq<Sample<I, D>>,
    settle: Sample<I, D>,
)
    requires
        m.state is Up,
        waits(config, waiting),
        !within(settle.elapsed, config.release),
    ensures
        run(config, m, waiting + seq![settle]) == (Machine { state: State::Released, ..m }),
        run(config, m, waiting + seq![settle]).settled_clicks() == m.clicks,
{
    lemma_run_concat(config, m, waiting, seq![settle]);
    assert(all_quiet(config, m, waiting));
    lemma_quiet_ticks_change_nothing(config, m, waiting);
    lemma_run_one(config, m, settle);
}

/// One clean click from idle, left alone until the release window is over,
/// is reported as exactly one click and no hold.
pub proof fn lemma_single_click<I, D: PartialOrd>(
    config: ButtonConfig<D>,
    m: Machine<I, D>,
    click: Click<I, D>,
    waiting: Seq<Sample<I, D>>,
    settle: Sample<I, D>,
)
    requires
        m.wf(),
        m.state is Unknown || m.state is Released,
        click.fits(config),
        waits(config, waiting),
        !within(settle.elapsed, config.release),
    ensures
        run(config, m, click.samples() + waiting + seq![settle]) == (Machine::<I, D> {
            state: State::Released,
            clicks: 1,
            held: None,
        }),
        run(config, m, click.samples() + waiting + seq![settle]).settled_clicks() == 1,
{
    let up = run(config, m, click.samples());
    lemma_click_is_counted(config, m, click);
    lemma_streak_settles(config, up, waiting, settle);
    assert(click.samples() + waiting + seq![settle] =~= click.samples() + (waiting + seq![settle]));
    lemma_run_concat(config, m, click.samples(), waiting + seq![settle]);
}

/// Two clean clicks from idle, the second begun within the release window of
/// the first, are reported as exactly two clicks and no hold.
pub proof fn lemma_double_click<I, D: PartialOrd>(
    config: ButtonConfig<D>,
    m: Machine<I, D>,
    first: Click<I, D>,
    gap: Seq<Sample<I, D>>,
    second: Click<I, D>,
    waiting: Seq<Sample<I, D>>,
    settle: Sample<I, D>,
)
    requires
        m.wf(),
        m.state is Unknown || m.state is Released,
        first.fits(config),
        waits(config, gap),
        second.fits(config),
        within(second.edge.elapsed, config.release),
        waits(config, waiting),
        !within(settle.elapsed, config.release),
    ensures
        run(
            config,
            m,
            first.samples() + gap + second.samples() + waiting + seq![settle],
        ) == (Machine::<I, D> { state: State::Released, clicks: 2, held: None }),
        run(
            config,
            m,
            first.samples() + gap + second.samples() + waiting + seq![settle],
        ).settled_clicks() == 2,
{
    let up = run(config, m, first.samples());
    lemma_click_is_counted(config, m, first);
    assert(all_quiet(config, up, gap));
    lemma_quiet_ticks_change_nothing(config, up, gap);
    lemma_run_concat(config, m, first.samples(), gap);
    lemma_click_is_counted(config, up, second);
    lemma_run_concat(config, m, first.samples() + gap, second.samples());
    let up_again = run(config, up, second.samples());
    lemma_streak_settles(config, up_again, waiting, settle);
    let head = first.samples() + gap + second.samples();
    assert(head + waiting + seq![settle] =~= head + (waiting + seq![settle]));
    lemma_run_concat(config, m, head, waiting + seq![settle]);
}

/// Each further click begun within the release window adds one to the count.
pub proof fn lemma_click_extends_streak<I, D: PartialOrd>(
    config: ButtonConfig<D>,
    m: Machine<I, D>,
    click: Click<I, D>,
)
    requires
        m.state is Up,
        click.fits(config),
        within(click.edge.elapsed, config.release),
    ensures
        run(config, m, click.samples()).state is Up,
        run(config, m, click.samples()).clicks == m.clicks + 1,
        run(config, m, click.samples()).held == m.held,
{
    lemma_click_is_counted(config, m, click);
}

/// The samples of a press that lasts until it becomes a hold.
pub ghost struct Hold<I, D> {
    /// The first sample that reads pressed.
    pub edge: Sample<I, D>,
    /// The samples before the debounce time is reached.
    pub bouncing: Seq<Sample<I, D>>,
    /// The first sample that reaches the debounce time.
    pub confirm: Sample<I, D>,
    /// The samples of the debounced press before the hold time is reached.
    pub holding: Seq<Sample<I, D>>,
    /// The first sample that reaches the hold time.
    pub turn: Sample<I, D>,
    /// The samples while the hold lasts.
    pub held: Seq<Sample<I, D>>,
    /// The first sample that reads released again.
    pub release: Sample<I, D>,
}

impl<I, D: PartialOrd> Hold<I, D> {
    /// The samples in the order of their ticks.
    pub open spec fn samples(self) -> Seq<Sample<I, D>> {
        seq![self.edge] + self.bouncing + seq![self.confirm] + self.holding + seq![self.turn]
            + self.held + seq![self.release]
    }

    /// The pin reads pressed until a sample of the debounced press reaches
    /// `hold`, stays pressed for any time after that, and then reads released.
    pub open spec fn fits(self, config: ButtonConfig<D>) -> bool {
        &&& self.edge.pressed
        &&& forall|k: int|
            0 <= k < self.bouncing.len() ==> {
                &&& (#[trigger] self.bouncing[k]).pressed
                &&& !reached(self.bouncing[k].elapsed, config.debounce)
            }
        &&& self.confirm.pressed
        &&& reached(self.confirm.elapsed, config.debounce)
        &&& forall|k: int|
            0 <= k < self.holding.len() ==> {
                &&& (#[trigger] self.holding[k]).pressed
                &&& !reached(self.holding[k].elapsed, config.hold)
            }
        &&& self.turn.pressed
        &&& reached(self.turn.elapsed, config.hold)
        &&& forall|k: int| 0 <= k < self.held.len() ==> (#[trigger] self.held[k]).pressed
        &&& !self.release.pressed
    }

    /// The samples up to the one that turns the press into a hold.
    pub open spec fn until_turn(self) -> Seq<Sample<I, D>> {
        seq![self.edge] + self.bouncing + seq![self.confirm] + self.holding + seq![self.turn]
    }
}

/// A press that lasts for `hold` stops counting as a click: the counter drops
/// to zero as the press becomes a hold, whatever the streak had counted. On
/// release the button is `Released` with no click to report and with the
/// elapsed time that the releasing tick read as the held time.
pub proof fn lemma_hold_is_no_click<I, D: PartialOrd>(
    config: ButtonConfig<D>,
    m: Machine<I, D>,
    hold: Hold<I, D>,
)
    requires
        takes_press(config, m, hold.edge),
        hold.fits(config),
    ensures
        run(config, m, hold.until_turn()) == (Machine {
            state: State::Held(hold.edge.now),
            clicks: 0,
            held: after_press(m, hold.edge).held,
        }),
        run(config, m, hold.samples()) == (Machine::<I, D> {
            state: State::Released,
            clicks: 0,
            held: hold.release.elapsed,
        }),
        run(config, m, hold.samples()).settled_clicks() == 0,
{
    let down = after_press(m, hold.edge);
    let pressed = Machine { state: State::Pressed(hold.edge.now), ..down };
    let held = Machine { state: State::Held(hold.edge.now), clicks: 0, held: down.held };
    let a = seq![hold.edge];
    let b = a + hold.bouncing;
    let c = b + seq![hold.confirm];
    let d = c + hold.holding;
    let e = d + seq![hold.turn];
    let f = e + hold.held;
    lemma_run_concat(config, m, f, seq![hold.release]);
    lemma_run_concat(config, m, e, hold.held);
    lemma_run_concat(config, m, d, seq![hold.turn]);
    lemma_run_concat(config, m, c, hold.holding);
    lemma_run_concat(config, m, b, seq![hold.confirm]);
    lemma_run_concat(config, m, a, hold.bouncing);
    lemma_run_one(config, m, hold.edge);
    assert(all_quiet(config, down, hold.bouncing));
    lemma_quiet_ticks_change_nothing(config, down, hold.bouncing);
    lemma_run_one(config, down, hold.confirm);
    assert(all_quiet(config, pressed, hold.holding));
    lemma_quiet_ticks_change_nothing(config, pressed, hold.holding);
    lemma_run_one(config, pressed, hold.turn);
    assert(all_quiet(config, held, hold.held));
    lemma_quiet_ticks_change_nothing(config, held, hold.held);
    lemma_run_one(config, held, hold.release);
}

/// `>=` on `D` is transitive.
pub open spec fn ge_is_transitive<D: PartialOrd>() -> bool {
    forall|a: D, b: D, c: D| #[trigger] at_least(a, b) && #[trigger] at_least(b, c) ==> at_least(a, c)
}

/// Durations counted in `u64` ticks are ordered transitively, so
/// [`lemma_held_time_is_at_least_hold`] applies to them.
pub proof fn lemma_tick_counts_are_transitive()
    ensures
        ge_is_transitive::<u64>(),
{
}

/// The held time of a hold is at least `hold`, where the clock does not run
/// backwards: the releasing tick reads no less elapsed time than the tick
/// that turned the press into a hold.
pub proof fn lemma_held_time_is_at_least_hold<I, D: PartialOrd>(
    config: ButtonConfig<D>,
    m: Machine<I, D>,
    hold: Hold<I, D>,
)
    requires
        takes_press(config, m, hold.edge),
        hold.fits(config),
        ge_is_transitive::<D>(),
        hold.release.elapsed matches Some(at_release) && hold.turn.elapsed matches Some(at_turn)
            && at_least(at_release, at_turn),
    ensures
        run(config, m, hold.samples()).held matches Some(d) && at_least(d, config.hold),
{
    lemma_hold_is_no_click(config, m, hold);
    let at_release = hold.release.elapsed->0;
    let at_turn = hold.turn.elapsed->0;
    assert(at_least(at_release, at_turn) && at_least(at_turn, config.hold));
}

} // verus!
