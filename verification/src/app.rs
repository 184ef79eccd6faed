//! The mode-cycling application core.
//!
//! The core owns the ordered mode list and the active-mode cursor and
//! runs the lifecycle state machine of the frame loop: `Entering(i)`
//! runs the active mode's setup and always proceeds to `Running(i)`;
//! `Running(i)` consumes a pending button signal (moving to
//! `Exiting(i)` without updating or drawing that tick) or else updates
//! the active mode, draws the title-framed display content and stays in
//! `Running(i)`; `Exiting(i)` runs the mode's teardown and advances the
//! cursor to `Entering((i+1) mod n)`. The cycle has no final state.
//!
//! Setup and teardown failures are absorbed: a mode becomes (or stops
//! being) active even if its peripheral calls fail. A ghost log records
//! every enter and exit, and the core's invariant pins the whole
//! lifecycle history: modes are entered in list order, wrapping at the
//! end, and each teardown completes before the next setup begins.

use vstd::arithmetic::div_mod::lemma_fundamental_div_mod;
use vstd::arithmetic::div_mod::lemma_fundamental_div_mod_converse_mod;
use vstd::arithmetic::div_mod::lemma_mod_division_less_than_divisor;
use vstd::arithmetic::div_mod::lemma_mod_multiples_basic;
use vstd::prelude::*;

use crate::display::DisplayList;
use crate::geometry::Rect;
use crate::mode::mode_draw_spec;
use crate::mode::mode_wf;
use crate::mode::title_spec;
use crate::mode::Mode;
use crate::peripherals::AccelerationInput;
use crate::peripherals::AnalogInput;
use crate::peripherals::BallDynamics;
use crate::peripherals::EnvironmentSensors;
use crate::peripherals::Pwm;
use crate::peripherals::ToneMap;
use crate::platform::Platform;
use crate::signal::ButtonSignal;
use crate::style::AppStyle;
use crate::ui::title_frame::inner_area_spec;
use crate::ui::title_frame::title_frame_commands_spec;
use crate::ui::title_frame::TitleFrame;

verus! {

/// The lifecycle phase of the application core.
#[derive(Clone, Copy, Debug, PartialEq, Eq, Structural)]
pub enum Phase {
    /// The active mode's setup runs next.
    Entering,
    /// The active mode is updated and drawn every tick.
    Running,
    /// The active mode's teardown runs next.
    Exiting,
}

/// What one step of the core did.
#[derive(Clone, Copy, Debug, PartialEq, Eq, Structural)]
pub enum StepOutcome {
    /// The mode at this index became active: its setup ran.
    Entered(usize),
    /// The active mode updated its state and the frame was drawn.
    Rendered,
    /// A pending switch request was consumed; the active mode's
    /// teardown runs next, and nothing was updated or drawn this tick.
    SwitchPending,
    /// The mode at this index stopped being active: its teardown ran.
    Exited(usize),
}

/// One recorded lifecycle event.
pub enum LifecycleEvent {
    Enter(int),
    Exit(int),
}

/// The cursor position after one switch: the next index, wrapping at
/// the end of the list.
pub open spec fn next_index(i: int, n: int) -> int {
    if i + 1 == n {
        0
    } else {
        i + 1
    }
}

/// The cursor position one switch earlier.
pub open spec fn prev_index(j: int, n: int) -> int {
    if j == 0 {
        n - 1
    } else {
        j - 1
    }
}

/// The cursor position after `k` switches from `start`.
pub open spec fn index_after(start: int, n: int, k: nat) -> int
    decreases k,
{
    if k == 0 {
        start
    } else {
        next_index(index_after(start, n, (k - 1) as nat), n)
    }
}

/// Stepping the wrapped cursor agrees with modular arithmetic.
proof fn lemma_next_mod(a: int, n: int)
    requires
        1 <= n,
        0 <= a,
    ensures
        0 <= a % n < n,
        (a + 1) % n == next_index(a % n, n),
{
    lemma_mod_division_less_than_divisor(a, n);
    lemma_mod_division_less_than_divisor(a + 1, n);
    let r = a % n;
    lemma_fundamental_div_mod(a, n);
    assert((a / n) * n == n * (a / n)) by (nonlinear_arith);
    if r + 1 < n {
        lemma_fundamental_div_mod_converse_mod(a + 1, n, a / n, r + 1);
    } else {
        assert(a + 1 == (a / n + 1) * n + 0) by {
            assert((a / n + 1) * n == (a / n) * n + n) by (nonlinear_arith);
            assert(a == n * (a / n) + r);
            assert((a / n) * n == n * (a / n)) by (nonlinear_arith);
        }
        lemma_fundamental_div_mod_converse_mod(a + 1, n, a / n + 1, 0);
    }
}

/// Law (ordered cycling): `k` single presses, each spaced beyond the
/// refractory interval, advance the cursor from `start` to
/// `(start + k) mod n` — through indices `start+1, start+2, ...` in
/// order, never skipping or repeating.
pub proof fn lemma_cycle_order(start: int, n: int, k: nat)
    requires
        0 <= start < n,
    ensures
        0 <= index_after(start, n, k) < n,
        index_after(start, n, k) == (start + k) % n,
    decreases k,
{
    if k == 0 {
        lemma_fundamental_div_mod_converse_mod(start, n, 0, start);
        assert(0 * n + start == start) by (nonlinear_arith);
    } else {
        lemma_cycle_order(start, n, (k - 1) as nat);
        lemma_next_mod(start + k - 1, n);
    }
}

/// The lifecycle event a reachable history holds at position `k`: the
/// history alternates enters and exits, walking the mode list in
/// cyclic order starting from mode 0.
pub open spec fn cycle_event(k: nat, n: int) -> LifecycleEvent {
    if k % 2 == 0 {
        LifecycleEvent::Enter(((k / 2) as int) % n)
    } else {
        LifecycleEvent::Exit(((k / 2) as int) % n)
    }
}

/// The event's mode index is in range.
pub open spec fn event_index_ok(e: LifecycleEvent, n: int) -> bool {
    match e {
        LifecycleEvent::Enter(j) => 0 <= j < n,
        LifecycleEvent::Exit(i) => 0 <= i < n,
    }
}

/// Local shape of the lifecycle history: an exit follows the enter of
/// the same mode, an enter follows the exit of the previous mode in
/// the cycle.
pub open spec fn follows(prev: LifecycleEvent, cur: LifecycleEvent, n: int) -> bool {
    match cur {
        LifecycleEvent::Enter(j) => prev == LifecycleEvent::Exit(prev_index(j, n)),
        LifecycleEvent::Exit(i) => prev == LifecycleEvent::Enter(i),
    }
}

/// Well-formedness of the lifecycle history.
pub open spec fn log_wf(log: Seq<LifecycleEvent>, n: int) -> bool {
    &&& forall|k: int| 0 <= k < log.len() ==> event_index_ok(#[trigger] log[k], n)
    &&& (log.len() > 0 ==> log[0] == LifecycleEvent::Enter(0))
    &&& forall|k: int| 0 < k < log.len() ==> follows(log[k - 1], #[trigger] log[k], n)
}

/// Coherence of the history with the machine's current state.
pub open spec fn log_matches_state(log: Seq<LifecycleEvent>, n: int, active: int, phase: Phase)
    -> bool {
    match phase {
        Phase::Entering => (log.len() == 0 && active == 0) || (log.len() > 0 && log.last()
            == LifecycleEvent::Exit(prev_index(active, n))),
        Phase::Running => log.len() > 0 && log.last() == LifecycleEvent::Enter(active),
        Phase::Exiting => log.len() > 0 && log.last() == LifecycleEvent::Enter(active),
    }
}

/// Whether the mode drives the shared PWM timer.
pub open spec fn actuator_mode(m: Mode) -> bool {
    m is Led || m is Buzzer
}

/// What a mode update can be observed to do to an analog value: every
/// known value it leaves behind is one the input's percentage map can
/// report.
pub open spec fn analog_outcome<T: AnalogInput>(input: T, value: Option<i32>) -> bool {
    match value {
        Some(p) => exists|raw: u16| p == input.pct_of(raw),
        None => true,
    }
}

/// Which peripherals one running-tick update may touch: only the
/// active mode's own input (and, for the two actuator modes, the
/// shared PWM timer); every other peripheral is untouched. The
/// potentiometer channel is the input of the potentiometer, LED and
/// buzzer modes alike.
pub open spec fn platform_frame<
    POT: AnalogInput,
    SOUND: AnalogInput,
    LIGHT: AnalogInput,
    ENV: EnvironmentSensors,
    ACC: AccelerationInput,
    BALL: BallDynamics,
    TONE: ToneMap,
    PWM: Pwm,
>(
    pre: Platform<POT, SOUND, LIGHT, ENV, ACC, BALL, TONE, PWM>,
    post: Platform<POT, SOUND, LIGHT, ENV, ACC, BALL, TONE, PWM>,
    m: Mode,
) -> bool {
    &&& !(m is Potentiometer || m is Led || m is Buzzer) ==> post.pot == pre.pot
    &&& !(m is Light) ==> post.light == pre.light
    &&& !(m is Sound) ==> post.sound == pre.sound
    &&& !(m is Environment) ==> post.env == pre.env
    &&& !(m is Acceleration) ==> post.accel == pre.accel && post.ball == pre.ball
    &&& !(m is Buzzer) ==> post.tone == pre.tone
    &&& !(m is Led || m is Buzzer) ==> post.pwm == pre.pwm
}

/// What one running-tick update can be observed to do to the active
/// mode, given the inputs it reads. The variant never changes.
pub open spec fn mode_update_obs<POT: AnalogInput, SOUND: AnalogInput, LIGHT: AnalogInput>(
    pre: Mode,
    post: Mode,
    pot: POT,
    sound: SOUND,
    light: LIGHT,
) -> bool {
    match (pre, post) {
        (Mode::Environment(_), Mode::Environment(_)) => true,
        (Mode::Potentiometer(_), Mode::Potentiometer(q)) => analog_outcome(pot, q.value_deci_pct),
        (Mode::Acceleration(_), Mode::Acceleration(q)) => q.wf(),
        (Mode::Light(_), Mode::Light(q)) => analog_outcome(light, q.value_deci_pct),
        (Mode::Sound(_), Mode::Sound(q)) => analog_outcome(sound, q.value_deci_pct),
        (Mode::Led(_), Mode::Led(q)) => analog_outcome(pot, q.brightness_deci_pct),
        // The buzzer stores what the board's tone curve returned; the
        // curve has no value model, so nothing further is statable.
        (Mode::Buzzer(_), Mode::Buzzer(_)) => true,
        _ => false,
    }
}

/// The mode-cycling application core.
pub struct App {
    modes: Vec<Mode>,
    screen: Rect,
    active: usize,
    phase: Phase,
    log: Ghost<Seq<LifecycleEvent>>,
}

impl App {
    /// The ordered mode list (fixed at startup).
    pub closed spec fn modes_spec(&self) -> Seq<Mode> {
        self.modes@
    }

    /// The display area the core renders into.
    pub closed spec fn screen_spec(&self) -> Rect {
        self.screen
    }

    /// The active-mode cursor.
    pub closed spec fn active_spec(&self) -> int {
        self.active as int
    }

    /// The current lifecycle phase.
    pub closed spec fn phase_spec(&self) -> Phase {
        self.phase
    }

    /// The recorded lifecycle history.
    pub closed spec fn log_spec(&self) -> Seq<LifecycleEvent> {
        self.log@
    }

    pub open spec fn wf(self) -> bool {
        &&& 1 <= self.modes_spec().len()
        &&& 0 <= self.active_spec() < self.modes_spec().len()
        &&& self.screen_spec().wf()
        &&& (forall|k: int|
            0 <= k < self.modes_spec().len() ==> mode_wf(#[trigger] self.modes_spec()[k]))
        &&& log_wf(self.log_spec(), self.modes_spec().len() as int)
        &&& log_matches_state(
            self.log_spec(),
            self.modes_spec().len() as int,
            self.active_spec(),
            self.phase_spec(),
        )
    }

    /// Creates the core over a fixed mode list and display area; the
    /// machine starts about to enter the first mode.
    pub fn new(modes: Vec<Mode>, screen: Rect) -> (app: App)
        requires
            modes@.len() >= 1,
            screen.wf(),
            forall|k: int| 0 <= k < modes@.len() ==> mode_wf(#[trigger] modes@[k]),
        ensures
            app.wf(),
            app.modes_spec() == modes@,
            app.screen_spec() == screen,
            app.active_spec() == 0,
            app.phase_spec() == Phase::Entering,
            app.log_spec() == Seq::<LifecycleEvent>::empty(),
    {
        App {
            modes,
            screen,
            active: 0,
            phase: Phase::Entering,
            log: Ghost(Seq::empty()),
        }
    }

    pub fn active_index(&self) -> (i: usize)
        ensures
            i == self.active_spec(),
    {
        self.active
    }

    pub fn phase(&self) -> (p: Phase)
        ensures
            p == self.phase_spec(),
    {
        self.phase
    }

    pub fn mode_count(&self) -> (n: usize)
        ensures
            n == self.modes_spec().len(),
    {
        self.modes.len()
    }

    pub fn mode_at(&self, i: usize) -> (m: &Mode)
        requires
            i < self.modes_spec().len(),
        ensures
            *m == self.modes_spec()[i as int],
    {
        &self.modes[i]
    }

    /// One step of the lifecycle state machine; the board layer calls
    /// this in its frame loop, with a fixed delay after every rendered
    /// frame.
    pub fn step<
        POT: AnalogInput,
        SOUND: AnalogInput,
        LIGHT: AnalogInput,
        ENV: EnvironmentSensors,
        ACC: AccelerationInput,
        BALL: BallDynamics,
        TONE: ToneMap,
        PWM: Pwm,
    >(
        &mut self,
        platform: &mut Platform<POT, SOUND, LIGHT, ENV, ACC, BALL, TONE, PWM>,
        button: &mut ButtonSignal,
        style: &AppStyle,
        out: &mut DisplayList,
    ) -> (outcome: StepOutcome)
        requires
            old(self).wf(),
            old(platform).wf(),
            style.wf(),
        ensures
            final(self).wf(),
            final(platform).wf(),
            final(self).modes_spec().len() == old(self).modes_spec().len(),
            final(self).screen_spec() == old(self).screen_spec(),
            // Setup tick: the active mode becomes live; nothing is
            // consumed, drawn or updated.
            old(self).phase_spec() == Phase::Entering ==> {
                &&& outcome == StepOutcome::Entered(old(self).active_spec() as usize)
                &&& final(self).phase_spec() == Phase::Running
                &&& final(self).active_spec() == old(self).active_spec()
                &&& final(self).modes_spec() == old(self).modes_spec()
                &&& final(self).log_spec() == old(self).log_spec().push(
                    LifecycleEvent::Enter(old(self).active_spec()),
                )
                &&& *final(button) == *old(button)
                &&& final(out)@ == old(out)@
                &&& final(platform).pot == old(platform).pot
                &&& final(platform).sound == old(platform).sound
                &&& final(platform).light == old(platform).light
                &&& final(platform).env == old(platform).env
                &&& final(platform).accel == old(platform).accel
                &&& final(platform).ball == old(platform).ball
                &&& final(platform).tone == old(platform).tone
                &&& (!actuator_mode(old(self).modes_spec()[old(self).active_spec()])
                    ==> final(platform).pwm == old(platform).pwm)
            },
            // Running tick with a pending switch: the request is
            // consumed, nothing else happens this tick.
            old(self).phase_spec() == Phase::Running && old(button).pending_spec() ==> {
                &&& outcome == StepOutcome::SwitchPending
                &&& final(self).phase_spec() == Phase::Exiting
                &&& final(self).active_spec() == old(self).active_spec()
                &&& final(self).modes_spec() == old(self).modes_spec()
                &&& final(self).log_spec() == old(self).log_spec()
                &&& !final(button).pending_spec()
                &&& final(out)@ == old(out)@
                &&& *final(platform) == *old(platform)
            },
            // Running tick without a pending switch: the active mode
            // updates from its own inputs and the full frame — title,
            // border, mode content in the inner area — is appended to
            // the display list.
            old(self).phase_spec() == Phase::Running && !old(button).pending_spec() ==> {
                &&& outcome == StepOutcome::Rendered
                &&& final(self).phase_spec() == Phase::Running
                &&& final(self).active_spec() == old(self).active_spec()
                &&& final(self).log_spec() == old(self).log_spec()
                &&& !final(button).pending_spec()
                &&& final(self).modes_spec() == old(self).modes_spec().update(
                    old(self).active_spec(),
                    final(self).modes_spec()[old(self).active_spec()],
                )
                &&& mode_update_obs(
                    old(self).modes_spec()[old(self).active_spec()],
                    final(self).modes_spec()[old(self).active_spec()],
                    old(platform).pot,
                    old(platform).sound,
                    old(platform).light,
                )
                &&& final(out)@ == old(out)@ + title_frame_commands_spec(
                    title_spec(old(self).modes_spec()[old(self).active_spec()]),
                    style.title_style,
                    old(self).screen_spec(),
                ) + mode_draw_spec(
                    final(self).modes_spec()[old(self).active_spec()],
                    *style,
                    inner_area_spec(old(self).screen_spec(), style.title_style),
                )
                &&& forall|raw: u16|
                    final(platform).pot.pct_of(raw) == old(platform).pot.pct_of(raw)
                &&& forall|raw: u16|
                    final(platform).sound.pct_of(raw) == old(platform).sound.pct_of(raw)
                &&& forall|raw: u16|
                    final(platform).light.pct_of(raw) == old(platform).light.pct_of(raw)
                &&& platform_frame(
                    *old(platform),
                    *final(platform),
                    old(self).modes_spec()[old(self).active_spec()],
                )
            },
            // Teardown tick: the active mode's teardown runs to
            // completion before anything of the next mode happens, the
            // cursor advances by exactly one (wrapping), and a teardown
            // of a mode driving the shared PWM timer leaves that timer
            // silenced: duty cycle zero, output stage disabled.
            old(self).phase_spec() == Phase::Exiting ==> {
                &&& outcome == StepOutcome::Exited(old(self).active_spec() as usize)
                &&& final(self).phase_spec() == Phase::Entering
                &&& final(self).active_spec() == next_index(
                    old(self).active_spec(),
                    old(self).modes_spec().len() as int,
                )
                &&& final(self).modes_spec() == old(self).modes_spec()
                &&& final(self).log_spec() == old(self).log_spec().push(
                    LifecycleEvent::Exit(old(self).active_spec()),
                )
                &&& *final(button) == *old(button)
                &&& final(out)@ == old(out)@
                &&& final(platform).pot == old(platform).pot
                &&& final(platform).sound == old(platform).sound
                &&& final(platform).light == old(platform).light
                &&& final(platform).env == old(platform).env
                &&& final(platform).accel == old(platform).accel
                &&& final(platform).ball == old(platform).ball
                &&& final(platform).tone == old(platform).tone
                &&& (actuator_mode(old(self).modes_spec()[old(self).active_spec()])
                    ==> final(platform).pwm.duty_spec() == 0
                        && !final(platform).pwm.enabled_spec())
                &&& (!actuator_mode(old(self).modes_spec()[old(self).active_spec()])
                    ==> final(platform).pwm == old(platform).pwm)
            },
    {
        let n = self.modes.len();
        match self.phase {
            Phase::Entering => {
                let idx = self.active;
                let ghost pre_modes = self.modes@;
                match &mut self.modes[idx] {
                    Mode::Led(l) => {
                        let _ = l.enter(&mut platform.pwm);
                    },
                    Mode::Buzzer(b) => {
                        let _ = b.enter(&mut platform.pwm);
                    },
                    _ => {},
                }
                proof {
                    assert(self.modes@ =~= pre_modes);
                }
                self.phase = Phase::Running;
                self.log = Ghost(self.log@.push(LifecycleEvent::Enter(idx as int)));
                StepOutcome::Entered(idx)
            },
            Phase::Running => {
                if button.take() {
                    self.phase = Phase::Exiting;
                    StepOutcome::SwitchPending
                } else {
                    let idx = self.active;
                    match &mut self.modes[idx] {
                        Mode::Environment(e) => {
                            let t = platform.env.get_temperature();
                            let h = platform.env.get_humidity();
                            let p = platform.env.get_pressure();
                            e.update(t, h, p);
                        },
                        Mode::Potentiometer(p) => {
                            let r = platform.pot.input_pct();
                            p.update(r);
                        },
                        Mode::Acceleration(a) => {
                            let r = platform.accel.accel_norm();
                            let off = match &r {
                                Ok(v) => platform.ball.advance(*v),
                                Err(_) => a.ball_offset,
                            };
                            a.update(r, off);
                        },
                        Mode::Light(l) => {
                            let r = platform.light.input_pct();
                            l.update(r);
                        },
                        Mode::Sound(s) => {
                            let r = platform.sound.input_pct();
                            s.update(r);
                        },
                        Mode::Led(l) => {
                            let r = platform.pot.input_pct();
                            proof {
                                if r is Ok {
                                    let p = r->Ok_0;
                                    let raw = choose|raw: u16|
                                        p == old(platform).pot.pct_of(raw);
                                    platform.pot.pct_of_bounded(raw);
                                }
                            }
                            l.update(r, &mut platform.pwm);
                        },
                        Mode::Buzzer(b) => {
                            let r = platform.pot.input_pct();
                            let f = match &r {
                                Ok(p) => platform.tone.frequency_for(*p),
                                Err(_) => 0,
                            };
                            b.update(r, f, &mut platform.pwm);
                        },
                    }
                    let title = self.modes[idx].title();
                    let frame = TitleFrame::new_with_area(
                        title,
                        style.title_style,
                        style.default_color,
                        self.screen,
                    );
                    let inner = frame.inner_area();
                    frame.draw(out);
                    self.modes[idx].draw_with_style(style, inner, out);
                    StepOutcome::Rendered
                }
            },
            Phase::Exiting => {
                let idx = self.active;
                let ghost pre_modes = self.modes@;
                match &mut self.modes[idx] {
                    Mode::Led(l) => {
                        let _ = l.exit(&mut platform.pwm);
                    },
                    Mode::Buzzer(b) => {
                        let _ = b.exit(&mut platform.pwm);
                    },
                    _ => {},
                }
                proof {
                    assert(self.modes@ =~= pre_modes);
                }
                self.active = if idx + 1 == n {
                    0
                } else {
                    idx + 1
                };
                self.phase = Phase::Entering;
                self.log = Ghost(self.log@.push(LifecycleEvent::Exit(idx as int)));
                StepOutcome::Exited(idx)
            },
        }
    }
}

/// Law (teardown before setup): in every reachable lifecycle history,
/// each mode entry except the very first is immediately preceded by the
/// completed exit of the previous mode in the cycle. The old mode's
/// teardown returns before the new mode's setup begins.
pub proof fn lemma_exit_precedes_enter(app: &App, k: int, j: int)
    requires
        app.wf(),
        0 < k < app.log_spec().len(),
        app.log_spec()[k] == LifecycleEvent::Enter(j),
    ensures
        app.log_spec()[k - 1] == LifecycleEvent::Exit(
            prev_index(j, app.modes_spec().len() as int),
        ),
{
}

/// Law (the lifecycle history is the cycle): a reachable history is
/// exactly the alternating sequence enter 0, exit 0, enter 1, ...,
/// enter n-1, exit n-1, enter 0, ... — the modes run in list order,
/// wrap at the end, and are never skipped or repeated.
pub proof fn lemma_lifecycle_determined(app: &App, k: nat)
    requires
        app.wf(),
        k < app.log_spec().len(),
    ensures
        app.log_spec()[k as int] == cycle_event(k, app.modes_spec().len() as int),
    decreases k,
{
    let n = app.modes_spec().len() as int;
    let log = app.log_spec();
    if k == 0 {
        assert(log[0] == LifecycleEvent::Enter(0));
        lemma_mod_multiples_basic(0, n);
        assert(0int * n == 0) by (nonlinear_arith);
    } else {
        lemma_lifecycle_determined(app, (k - 1) as nat);
        let prev = log[k as int - 1];
        let cur = log[k as int];
        assert(follows(prev, cur, n));
        if k % 2 == 1 {
            // the previous event is the enter of mode (k/2) % n, so
            // this one is its exit
            assert(prev == LifecycleEvent::Enter(((k / 2) as int) % n)) by {
                assert((k - 1) / 2 == k / 2);
            }
            match cur {
                LifecycleEvent::Enter(_) => {
                    assert(false);
                },
                LifecycleEvent::Exit(i) => {
                    assert(i == ((k / 2) as int) % n);
                },
            }
        } else {
            // the previous event is the exit of mode (k/2 - 1) % n, so
            // this one enters the next mode in the cycle
            let m = ((k - 1) / 2) as int;
            assert(prev == LifecycleEvent::Exit(m % n));
            lemma_next_mod(m, n);
            match cur {
                LifecycleEvent::Enter(j) => {
                    assert(prev_index(j, n) == m % n);
                    assert(event_index_ok(cur, n));
                    assert(j == next_index(m % n, n)) by {
                        lemma_mod_division_less_than_divisor(m, n);
                        if j == 0 {
                            assert(prev_index(j, n) == n - 1);
                        }
                    }
                    assert((m + 1) % n == j);
                    assert((k / 2) as int == m + 1);
                },
                LifecycleEvent::Exit(_) => {
                    assert(false);
                },
            }
        }
    }
}

} // verus!
