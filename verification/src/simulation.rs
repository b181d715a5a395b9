//! The simulation controller: owns the current snapshot and the playback
//! state, and maps elapsed wall-clock time to simulated time under a
//! selectable speed, with adaptive step sizing, direction reversal, and
//! discrete jumps.
//!
//! The controller never reads a clock itself: every operation that needs the
//! current wall-clock instant takes it as a nanosecond count, so the whole
//! state machine is a pure function of its inputs. Each public operation's
//! contract equates the new state with a spec-level transition function on
//! the controller's model.

use vstd::prelude::*;

verus! {

use crate::choice::{Choice, ChoiceSet};
use crate::control::ControlEvent;
use crate::gravity::{spec_step, step, DT_LIMIT};
use crate::seconds::{sat_i64, Seconds, NANOS_PER_SEC};
use crate::snapshot::Snapshot;
use crate::status::SimulationStatus;

/// The default integration step: 60 simulated seconds, in nanoseconds.
pub const DEFAULT_STEP_NANOS: i64 = 60_000_000_000;

/// Lower bound on integration steps per wall-clock second implied by the
/// speed band: the step never exceeds `speed / MIN_STEPS_PER_WALL_SECOND`.
pub const MIN_STEPS_PER_WALL_SECOND: i64 = 100;

/// Upper bound on integration steps per wall-clock second implied by the
/// speed band: the step is never below `speed / MAX_STEPS_PER_WALL_SECOND`.
pub const MAX_STEPS_PER_WALL_SECOND: i64 = 10_000;

/// Hard ceiling on integrator calls in one `advance`, so a controller that
/// has fallen behind never stalls the caller.
pub const MAX_STEPS_PER_FRAME: u32 = 1000;

/// Smallest accepted preset speed: 10 simulated microseconds per wall second.
pub const SPEED_MIN_NANOS: i64 = 10_000;

/// Largest accepted preset speed: 1e17 simulated nanoseconds (about 3.17
/// years) per wall second.
pub const SPEED_MAX_NANOS: i64 = 100_000_000_000_000_000;

/// The most simulated time one `advance` call closes:
/// `MAX_STEPS_PER_FRAME * DT_LIMIT` nanoseconds (about 31.7 years). A larger
/// gap is closed across several calls.
pub const ADVANCE_CAP_NANOS: i64 = 1_000_000_000_000_000_000;

/// The wall-clock instant and simulated timestamp captured when a run
/// starts; `advance` maps wall time elapsed since `instant` to simulated
/// time elapsed since `timestamp`.
#[derive(Clone, Copy, PartialEq, Eq, Structural, Debug)]
pub struct StartInfo {
    /// Wall-clock nanoseconds (an arbitrary monotonic origin).
    pub instant: i64,
    /// Simulated UTC nanoseconds since the Unix epoch.
    pub timestamp: i64,
}

/// Whether the controller is advancing with wall time.
#[derive(Clone, Copy, PartialEq, Eq, Structural, Debug)]
pub enum State {
    Stopped,
    Running(StartInfo),
}

/// The simulation controller.
pub struct Simulation {
    /// The latest snapshot.
    pub current: Snapshot,
    /// Simulated duration per elapsed wall-clock second.
    pub speed: Choice<Seconds>,
    /// When set, simulated time decreases as wall time advances.
    pub reverse: bool,
    pub state: State,
}

/// The controller's model: its snapshot, speed list and selection, direction
/// and run state, with the speed list abstracted to a sequence.
pub ghost struct SimModel {
    pub current: Snapshot,
    pub speeds: Seq<Seconds>,
    pub speed_idx: int,
    pub reverse: bool,
    pub state: State,
}

/// Every preset speed is positive and within the accepted band.
pub open spec fn speed_list_wf(speeds: Seq<Seconds>) -> bool {
    &&& speeds.len() >= 1
    &&& forall|i: int|
        0 <= i < speeds.len() ==> SPEED_MIN_NANOS <= (#[trigger] speeds[i]).0 <= SPEED_MAX_NANOS
}

/// A well-formed model: valid snapshot, valid speed selection, and — the
/// central controller invariant — while running, the current timestamp lies
/// on the start timestamp's advancing side, so the gap to any new target is
/// never negative under a monotone clock.
pub open spec fn model_wf(m: SimModel) -> bool {
    &&& m.current.wf()
    &&& speed_list_wf(m.speeds)
    &&& 0 <= m.speed_idx < m.speeds.len()
    &&& match m.state {
        State::Stopped => true,
        State::Running(si) => if m.reverse {
            m.current.timestamp <= si.timestamp
        } else {
            m.current.timestamp >= si.timestamp
        },
    }
}

/// The selected speed of a model, in simulated nanoseconds per wall second.
pub open spec fn model_speed(m: SimModel) -> int {
    m.speeds[m.speed_idx].0 as int
}

/// `start`: capture the wall instant and the current simulated timestamp and
/// run from there. Restarts unconditionally from any state.
pub open spec fn spec_start(m: SimModel, now: i64) -> SimModel {
    SimModel {
        state: State::Running(StartInfo { instant: now, timestamp: m.current.timestamp }),
        ..m
    }
}

/// `stop`: discard the running start reference; the snapshot stays.
pub open spec fn spec_stop(m: SimModel) -> SimModel {
    SimModel { state: State::Stopped, ..m }
}

/// `toggle_start`: stop if running, start if stopped.
pub open spec fn spec_toggle_start(m: SimModel, now: i64) -> SimModel {
    match m.state {
        State::Running(_) => spec_stop(m),
        State::Stopped => spec_start(m, now),
    }
}

/// The target integration step for a given speed: the default step clamped
/// into `[speed / MAX_STEPS_PER_WALL_SECOND, speed / MIN_STEPS_PER_WALL_SECOND]`,
/// which bounds the number of steps per wall second at either end.
pub open spec fn spec_target_step(speed: int) -> int {
    let lo = speed / (MAX_STEPS_PER_WALL_SECOND as int);
    let hi = speed / (MIN_STEPS_PER_WALL_SECOND as int);
    let raised = if DEFAULT_STEP_NANOS as int >= lo {
        DEFAULT_STEP_NANOS as int
    } else {
        lo
    };
    if raised <= hi {
        raised
    } else {
        hi
    }
}

/// How many steps close a gap of `advance` with target step `target_step`:
/// the ceiling ratio, capped at `MAX_STEPS_PER_FRAME`.
pub open spec fn spec_num_steps(advance: int, target_step: int) -> int {
    let n = (advance + target_step - 1) / target_step;
    if n > MAX_STEPS_PER_FRAME as int {
        MAX_STEPS_PER_FRAME as int
    } else {
        n
    }
}

/// `left` integration steps that together close a gap of exactly `rem`
/// nanoseconds: each step takes the ceiling share of what remains (negated
/// when `reverse`), so the last step lands exactly on the target.
pub open spec fn spec_multi_step(s: Snapshot, rem: int, left: int, reverse: bool) -> Snapshot
    decreases left,
{
    if left <= 0 {
        s
    } else {
        let dt = (rem + left - 1) / left;
        let signed = if reverse {
            -dt
        } else {
            dt
        };
        spec_multi_step(spec_step(s, signed), rem - dt, left - 1, reverse)
    }
}

/// Simulated time elapsed for a wall-clock `elapsed`: `speed` per wall
/// second, truncated to whole nanoseconds, saturated at the largest
/// representable duration.
pub open spec fn spec_sim_elapsed(speed: int, elapsed: int) -> int {
    sat_i64(speed * elapsed / (NANOS_PER_SEC as int))
}

/// The simulated timestamp `advance` steers toward: the start timestamp
/// moved by the simulated elapsed time in the current direction, saturated
/// at the representable time range.
pub open spec fn spec_advance_target(m: SimModel, si: StartInfo, now: i64) -> int {
    let elapsed0 = now - si.instant;
    let elapsed = if elapsed0 >= 0 {
        elapsed0
    } else {
        0
    };
    let sim_elapsed = spec_sim_elapsed(model_speed(m), elapsed);
    if m.reverse {
        sat_i64(si.timestamp - sim_elapsed)
    } else {
        sat_i64(si.timestamp + sim_elapsed)
    }
}

/// The non-negative gap from the current timestamp to the target, capped at
/// `ADVANCE_CAP_NANOS`.
pub open spec fn spec_advance_amount(m: SimModel, si: StartInfo, now: i64) -> int {
    let target = spec_advance_target(m, si, now);
    let raw = if m.reverse {
        m.current.timestamp - target
    } else {
        target - m.current.timestamp
    };
    let nonneg = if raw >= 0 {
        raw
    } else {
        0
    };
    if nonneg > ADVANCE_CAP_NANOS as int {
        ADVANCE_CAP_NANOS as int
    } else {
        nonneg
    }
}

/// `advance`: nothing while stopped; while running, close the gap between
/// the current timestamp and the wall-clock-implied target with a bounded
/// number of integration steps.
pub open spec fn spec_advance(m: SimModel, now: i64) -> SimModel {
    match m.state {
        State::Stopped => m,
        State::Running(si) => {
            let amount = spec_advance_amount(m, si, now);
            let n = spec_num_steps(amount, spec_target_step(model_speed(m)));
            SimModel { current: spec_multi_step(m.current, amount, n, m.reverse), ..m }
        },
    }
}

/// `adjust_speed`: while stopped, select the new speed directly; while
/// running, stop, select, and restart at `now`, so the elapsed-time mapping
/// is recaptured under the new speed.
pub open spec fn spec_adjust_speed(m: SimModel, speeds: Seq<Seconds>, idx: int, now: i64) -> SimModel {
    let set = SimModel { speeds, speed_idx: idx, ..m };
    match m.state {
        State::Stopped => set,
        State::Running(_) => spec_start(SimModel { state: State::Stopped, ..set }, now),
    }
}

/// `reverse`: flip the direction, through the same stop/mutate/restart
/// discipline as a speed change.
pub open spec fn spec_reverse(m: SimModel, now: i64) -> SimModel {
    let flipped = SimModel { reverse: !m.reverse, ..m };
    match m.state {
        State::Stopped => flipped,
        State::Running(_) => spec_start(SimModel { state: State::Stopped, ..flipped }, now),
    }
}

/// One speed-unit of simulated time, clamped so the jumped-to timestamp
/// stays representable.
pub open spec fn spec_jump_amount(m: SimModel, back: bool) -> int {
    let speed = model_speed(m);
    if back {
        if m.current.timestamp - speed < i64::MIN {
            m.current.timestamp - i64::MIN
        } else {
            speed
        }
    } else {
        if m.current.timestamp + speed > i64::MAX {
            i64::MAX - m.current.timestamp
        } else {
            speed
        }
    }
}

/// A jump: a one-shot advance by one speed-unit of simulated time in the
/// given direction, only while stopped; the reverse flag is restored
/// afterwards, so only the snapshot changes.
pub open spec fn spec_jump(m: SimModel, back: bool) -> SimModel {
    let amount = spec_jump_amount(m, back);
    SimModel {
        current: spec_multi_step(m.current, amount, MAX_STEPS_PER_FRAME as int, back),
        ..m
    }
}

/// `handle_event`: dispatch one control event. Jumps are silently ignored
/// while running.
pub open spec fn spec_handle_event(m: SimModel, ev: ControlEvent, now: i64) -> SimModel {
    match ev {
        ControlEvent::StartStop => spec_toggle_start(m, now),
        ControlEvent::SetSpeed(c) => spec_adjust_speed(m, c.values(), c.idx(), now),
        ControlEvent::Faster => spec_adjust_speed(
            m,
            m.speeds,
            if m.speed_idx + 1 < m.speeds.len() {
                m.speed_idx + 1
            } else {
                m.speed_idx
            },
            now,
        ),
        ControlEvent::Slower => spec_adjust_speed(
            m,
            m.speeds,
            if m.speed_idx > 0 {
                m.speed_idx - 1
            } else {
                0
            },
            now,
        ),
        ControlEvent::Reverse => spec_reverse(m, now),
        ControlEvent::JumpForward => if m.state is Running {
            m
        } else {
            spec_jump(m, false)
        },
        ControlEvent::JumpBack => if m.state is Running {
            m
        } else {
            spec_jump(m, true)
        },
    }
}

/// The ceiling share of a remaining gap never exceeds the per-step cap, and
/// what remains after taking it still fits the remaining steps.
pub proof fn lemma_ceil_step(rem: int, left: int, cap: int)
    requires
        1 <= left,
        0 <= rem,
        rem <= left * cap,
        0 <= cap,
    ensures
        ({
            let dt = (rem + left - 1) / left;
            &&& 0 <= dt <= cap
            &&& 0 <= rem - dt
            &&& rem - dt <= (left - 1) * cap
        }),
{
    let dt = (rem + left - 1) / left;
    assert(rem + left - 1 < left * (cap + 1)) by (nonlinear_arith)
        requires
            rem <= left * cap,
            1 <= left,
    ;
    vstd::arithmetic::div_mod::lemma_multiply_divide_lt(rem + left - 1, left, cap + 1);
    vstd::arithmetic::div_mod::lemma_div_pos_is_pos(rem + left - 1, left);
    vstd::arithmetic::div_mod::lemma_fundamental_div_mod(rem + left - 1, left);
    let k = (rem + left - 1) % left;
    assert(rem + left - 1 == left * dt + k);
    assert(0 <= k < left) by {
        vstd::arithmetic::div_mod::lemma_mod_division_less_than_divisor(rem + left - 1, left);
    }
    // rem - dt == left*dt + k - left + 1 - dt == dt*(left-1) + (k - left + 1)
    assert(dt * (left - 1) == left * dt - dt) by (nonlinear_arith);
    assert(rem - dt == dt * (left - 1) + (k - left + 1));
    assert(dt * (left - 1) <= cap * (left - 1)) by {
        vstd::arithmetic::mul::lemma_mul_inequality(dt, cap, left - 1);
        vstd::arithmetic::mul::lemma_mul_is_commutative(dt, left - 1);
        vstd::arithmetic::mul::lemma_mul_is_commutative(cap, left - 1);
    }
    assert(cap * (left - 1) == (left - 1) * cap) by {
        vstd::arithmetic::mul::lemma_mul_is_commutative(cap, left - 1);
    }
    if dt >= 1 {
        assert(dt * (left - 1) >= left - 1) by (nonlinear_arith)
            requires
                dt >= 1,
                left >= 1,
        ;
    } else {
        assert(dt == 0);
    }
}

/// The capped step count still covers the capped advance amount: `advance`
/// never needs a step beyond `DT_LIMIT`.
pub proof fn lemma_steps_cover_amount(amount: int, tstep: int)
    requires
        0 <= amount <= ADVANCE_CAP_NANOS as int,
        1 <= tstep <= DT_LIMIT as int,
    ensures
        ({
            let n = spec_num_steps(amount, tstep);
            &&& 0 <= n <= MAX_STEPS_PER_FRAME as int
            &&& amount <= n * (DT_LIMIT as int)
        }),
{
    let n = spec_num_steps(amount, tstep);
    vstd::arithmetic::div_mod::lemma_div_pos_is_pos(amount + tstep - 1, tstep);
    if (amount + tstep - 1) / tstep > MAX_STEPS_PER_FRAME as int {
        assert(amount <= n * (DT_LIMIT as int));
    } else {
        vstd::arithmetic::div_mod::lemma_fundamental_div_mod(amount + tstep - 1, tstep);
        vstd::arithmetic::div_mod::lemma_mod_division_less_than_divisor(amount + tstep - 1, tstep);
        assert(amount <= n * tstep) by (nonlinear_arith)
            requires
                n == (amount + tstep - 1) / tstep,
                amount + tstep - 1 == tstep * n + (amount + tstep - 1) % tstep,
                0 <= (amount + tstep - 1) % tstep < tstep,
                1 <= tstep,
                0 <= amount,
        ;
        vstd::arithmetic::mul::lemma_mul_inequality(tstep, DT_LIMIT as int, n);
        vstd::arithmetic::mul::lemma_mul_is_commutative(tstep, n);
        vstd::arithmetic::mul::lemma_mul_is_commutative(DT_LIMIT as int, n);
    }
}

/// A step of the integer model keeps the snapshot well formed.
pub proof fn lemma_spec_step_wf(s: Snapshot, dt: int)
    requires
        s.wf(),
    ensures
        spec_step(s, dt).wf(),
{
}

/// The bounded multi-step schedule closes its gap exactly: the resulting
/// timestamp is the starting one moved by exactly `rem` in the requested
/// direction, and the snapshot stays well formed.
pub proof fn lemma_multi_step_timestamp(s: Snapshot, rem: int, left: int, reverse: bool)
    requires
        s.wf(),
        0 <= left,
        0 <= rem,
        rem <= left * (DT_LIMIT as int),
        !reverse ==> s.timestamp + rem <= i64::MAX,
        reverse ==> s.timestamp - rem >= i64::MIN,
    ensures
        spec_multi_step(s, rem, left, reverse).wf(),
        spec_multi_step(s, rem, left, reverse).timestamp == if reverse {
            s.timestamp - rem
        } else {
            s.timestamp + rem
        },
    decreases left,
{
    if left <= 0 {
        assert(left * (DT_LIMIT as int) == 0) by (nonlinear_arith)
            requires
                left == 0,
        ;
        assert(rem == 0);
    } else {
        lemma_ceil_step(rem, left, DT_LIMIT as int);
        let dt = (rem + left - 1) / left;
        let signed = if reverse {
            -dt
        } else {
            dt
        };
        let s2 = spec_step(s, signed);
        lemma_spec_step_wf(s, signed);
        assert(s2.timestamp == s.timestamp + signed);
        lemma_multi_step_timestamp(s2, rem - dt, left - 1, reverse);
    }
}

impl Simulation {
    /// The model of this controller.
    pub open spec fn model(self) -> SimModel {
        SimModel {
            current: self.current,
            speeds: self.speed.values(),
            speed_idx: self.speed.idx(),
            reverse: self.reverse,
            state: self.state,
        }
    }

    /// A well-formed controller.
    pub open spec fn wf(self) -> bool {
        model_wf(self.model())
    }

    /// A controller seeded with `start`, stopped, running forward, with the
    /// preset speed list (1 minute to 90 days of simulated time per wall
    /// second) and 1 hour per second selected.
    pub fn new(start: Snapshot) -> (r: Simulation)
        requires
            start.wf(),
        ensures
            r.wf(),
            r.model().current == start,
            r.model().reverse == false,
            r.model().state == State::Stopped,
            r.model().speed_idx == 2,
            r.model().speeds == seq![
                Seconds(60_000_000_000),
                Seconds(900_000_000_000),
                Seconds(3_600_000_000_000),
                Seconds(14_400_000_000_000),
                Seconds(86_400_000_000_000),
                Seconds(432_000_000_000_000),
                Seconds(2_592_000_000_000_000),
                Seconds(7_776_000_000_000_000),
            ],
    {
        let mut speeds: Vec<Seconds> = Vec::new();
        speeds.push(Seconds(60_000_000_000));  // 1 minute
        speeds.push(Seconds(900_000_000_000));  // 15 minutes
        speeds.push(Seconds(3_600_000_000_000));  // 1 hour
        speeds.push(Seconds(14_400_000_000_000));  // 4 hours
        speeds.push(Seconds(86_400_000_000_000));  // 1 day
        speeds.push(Seconds(432_000_000_000_000));  // 5 days
        speeds.push(Seconds(2_592_000_000_000_000));  // 30 days
        speeds.push(Seconds(7_776_000_000_000_000));  // 90 days
        let speed = ChoiceSet::new(speeds).by_index(2);
        proof {
            assert(speed.values() =~= seq![
                Seconds(60_000_000_000),
                Seconds(900_000_000_000),
                Seconds(3_600_000_000_000),
                Seconds(14_400_000_000_000),
                Seconds(86_400_000_000_000),
                Seconds(432_000_000_000_000),
                Seconds(2_592_000_000_000_000),
                Seconds(7_776_000_000_000_000),
            ]);
        }
        Simulation { current: start, speed, reverse: false, state: State::Stopped }
    }

    /// Whether the controller is running.
    fn is_running(&self) -> (r: bool)
        ensures
            r == (self.state is Running),
    {
        match self.state {
            State::Running(_) => true,
            State::Stopped => false,
        }
    }

    /// Starts (or restarts) the run at wall instant `now`.
    pub fn start(&mut self, now: i64)
        requires
            old(self).wf(),
        ensures
            final(self).wf(),
            final(self).model() == spec_start(old(self).model(), now),
    {
        self.state = State::Running(
            StartInfo { instant: now, timestamp: self.current.timestamp },
        );
    }

    /// Stops the run; the current snapshot is kept.
    pub fn stop(&mut self)
        requires
            old(self).wf(),
        ensures
            final(self).wf(),
            final(self).model() == spec_stop(old(self).model()),
    {
        self.state = State::Stopped;
    }

    /// Stops if running, starts at `now` if stopped.
    pub fn toggle_start(&mut self, now: i64)
        requires
            old(self).wf(),
        ensures
            final(self).wf(),
            final(self).model() == spec_toggle_start(old(self).model(), now),
    {
        if self.is_running() {
            self.stop();
        } else {
            self.start(now);
        }
    }

    /// Replaces the current snapshot by stepping `num_steps` times (capped at
    /// `MAX_STEPS_PER_FRAME`) so the timestamp moves by exactly `advance`
    /// nanoseconds in the current direction.
    fn advance_by(&mut self, advance: Seconds, num_steps: u32)
        requires
            old(self).wf(),
            0 <= advance.0 <= ADVANCE_CAP_NANOS,
            advance.0 <= (if num_steps > MAX_STEPS_PER_FRAME {
                MAX_STEPS_PER_FRAME as int
            } else {
                num_steps as int
            }) * (DT_LIMIT as int),
            !old(self).reverse ==> old(self).current.timestamp + advance.0 <= i64::MAX,
            old(self).reverse ==> old(self).current.timestamp - advance.0 >= i64::MIN,
        ensures
            final(self).current == spec_multi_step(
                old(self).current,
                advance.0 as int,
                if num_steps > MAX_STEPS_PER_FRAME {
                    MAX_STEPS_PER_FRAME as int
                } else {
                    num_steps as int
                },
                old(self).reverse,
            ),
            final(self).current.wf(),
            final(self).current.timestamp == if old(self).reverse {
                old(self).current.timestamp - advance.0
            } else {
                old(self).current.timestamp + advance.0
            },
            final(self).speed == old(self).speed,
            final(self).reverse == old(self).reverse,
            final(self).state == old(self).state,
    {
        let n: u32 = if num_steps > MAX_STEPS_PER_FRAME {
            MAX_STEPS_PER_FRAME
        } else {
            num_steps
        };
        let mut rem: i64 = advance.0;
        let mut left: u32 = n;
        while left > 0
            invariant
                self.current.wf(),
                0 <= rem,
                rem <= left * (DT_LIMIT as int),
                spec_multi_step(self.current, rem as int, left as int, self.reverse)
                    == spec_multi_step(
                    old(self).current,
                    advance.0 as int,
                    n as int,
                    old(self).reverse,
                ),
                self.current.timestamp == if self.reverse {
                    old(self).current.timestamp - (advance.0 - rem)
                } else {
                    old(self).current.timestamp + (advance.0 - rem)
                },
                rem <= advance.0,
                !self.reverse ==> old(self).current.timestamp + advance.0 <= i64::MAX,
                self.reverse ==> old(self).current.timestamp - advance.0 >= i64::MIN,
                self.speed == old(self).speed,
                self.reverse == old(self).reverse,
                self.state == old(self).state,
            decreases left,
        {
            proof {
                lemma_ceil_step(rem as int, left as int, DT_LIMIT as int);
            }
            let dt: i64 = (((rem as u64) + (left as u64) - 1) / (left as u64)) as i64;
            let sdt: Seconds = if self.reverse {
                Seconds(-dt)
            } else {
                Seconds(dt)
            };
            self.current = step(&self.current, sdt);
            rem = rem - dt;
            left = left - 1;
        }
        proof {
            assert(left * (DT_LIMIT as int) == 0) by (nonlinear_arith)
                requires
                    left == 0,
            ;
            assert(rem == 0);
        }
    }

    /// Advances the simulation to match the wall clock at `now`: a no-op
    /// while stopped; while running, closes the gap between the current
    /// timestamp and `start_timestamp ± speed * elapsed` exactly, with at
    /// most `MAX_STEPS_PER_FRAME` integration steps (a gap beyond
    /// `ADVANCE_CAP_NANOS` is closed over several calls).
    pub fn advance(&mut self, now: i64)
        requires
            old(self).wf(),
        ensures
            final(self).wf(),
            final(self).model() == spec_advance(old(self).model(), now),
    {
        let st = self.state;
        match st {
            State::Stopped => {},
            State::Running(si) => {
                let speed: Seconds = self.speed.get();
                let elapsed0: i128 = now as i128 - si.instant as i128;
                let elapsed: i128 = if elapsed0 >= 0 {
                    elapsed0
                } else {
                    0
                };
                proof {
                    crate::gravity::lemma_mul_abs_bound(
                        speed.0 as int,
                        elapsed as int,
                        SPEED_MAX_NANOS as int,
                        elapsed as int,
                    );
                    crate::gravity::lemma_tdiv_range(
                        speed.0 as int * elapsed as int,
                        NANOS_PER_SEC as int,
                        SPEED_MAX_NANOS as int * elapsed as int,
                    );
                }
                let sim_elapsed128: i128 = (speed.0 as i128 * elapsed) / (NANOS_PER_SEC as i128);
                let sim_elapsed: i64 = if sim_elapsed128 > i64::MAX as i128 {
                    i64::MAX
                } else {
                    sim_elapsed128 as i64
                };
                let target128: i128 = if self.reverse {
                    si.timestamp as i128 - sim_elapsed as i128
                } else {
                    si.timestamp as i128 + sim_elapsed as i128
                };
                let target: i64 = if target128 > i64::MAX as i128 {
                    i64::MAX
                } else if target128 < i64::MIN as i128 {
                    i64::MIN
                } else {
                    target128 as i64
                };
                let raw: i128 = if self.reverse {
                    self.current.timestamp as i128 - target as i128
                } else {
                    target as i128 - self.current.timestamp as i128
                };
                let nonneg: i128 = if raw >= 0 {
                    raw
                } else {
                    0
                };
                let amount: i64 = if nonneg > ADVANCE_CAP_NANOS as i128 {
                    ADVANCE_CAP_NANOS
                } else {
                    nonneg as i64
                };
                let target_step: Seconds = Seconds(DEFAULT_STEP_NANOS)
                    .at_least(speed.div_by(MAX_STEPS_PER_WALL_SECOND))
                    .at_most(speed.div_by(MIN_STEPS_PER_WALL_SECOND));
                let num_steps64: u64 = Seconds(amount).ratio_ceil(target_step);
                let num_steps: u32 = if num_steps64 > MAX_STEPS_PER_FRAME as u64 {
                    MAX_STEPS_PER_FRAME
                } else {
                    num_steps64 as u32
                };
                proof {
                    let tstep = spec_target_step(model_speed(old(self).model()));
                    assert(target_step.0 == tstep);
                    assert(SPEED_MIN_NANOS as int / (MAX_STEPS_PER_WALL_SECOND as int) >= 1);
                    vstd::arithmetic::div_mod::lemma_div_is_ordered(
                        SPEED_MIN_NANOS as int,
                        speed.0 as int,
                        MAX_STEPS_PER_WALL_SECOND as int,
                    );
                    vstd::arithmetic::div_mod::lemma_div_is_ordered(
                        speed.0 as int,
                        SPEED_MAX_NANOS as int,
                        MIN_STEPS_PER_WALL_SECOND as int,
                    );
                    // target_step is at least 1 and at most DT_LIMIT.
                    assert(1 <= tstep <= DT_LIMIT as int);
                    lemma_steps_cover_amount(amount as int, tstep);
                    assert(num_steps as int == spec_num_steps(amount as int, tstep));
                }
                self.advance_by(Seconds(amount), num_steps);
            },
        }
    }

    /// Selects a new speed. Running, this restarts the run at `now` so the
    /// elapsed-time mapping is recaptured; stopped, it selects directly.
    pub fn adjust_speed(&mut self, new_speed: Choice<Seconds>, now: i64)
        requires
            old(self).wf(),
            new_speed.wf(),
            speed_list_wf(new_speed.values()),
        ensures
            final(self).wf(),
            final(self).model() == spec_adjust_speed(
                old(self).model(),
                new_speed.values(),
                new_speed.idx(),
                now,
            ),
    {
        let was_running = self.is_running();
        if was_running {
            self.stop();
        }
        self.speed = new_speed;
        if was_running {
            self.start(now);
        }
    }

    /// Toggles the direction of simulated time, through the same
    /// stop/mutate/restart discipline as a speed change.
    pub fn reverse(&mut self, now: i64)
        requires
            old(self).wf(),
        ensures
            final(self).wf(),
            final(self).model() == spec_reverse(old(self).model(), now),
    {
        let was_running = self.is_running();
        if was_running {
            self.stop();
        }
        self.reverse = !self.reverse;
        if was_running {
            self.start(now);
        }
    }

    /// Dispatches one control event at wall instant `now`.
    pub fn handle_event(&mut self, ev: &ControlEvent, now: i64)
        requires
            old(self).wf(),
            ev matches ControlEvent::SetSpeed(c) ==> c.wf() && speed_list_wf(c.values()),
        ensures
            final(self).wf(),
            final(self).model() == spec_handle_event(old(self).model(), *ev, now),
    {
        match ev {
            ControlEvent::StartStop => self.toggle_start(now),
            ControlEvent::SetSpeed(c) => self.adjust_speed(c.clone(), now),
            ControlEvent::Faster => {
                let next = self.speed.next();
                self.adjust_speed(next, now);
            },
            ControlEvent::Slower => {
                let prev = self.speed.prev();
                self.adjust_speed(prev, now);
            },
            ControlEvent::Reverse => self.reverse(now),
            ControlEvent::JumpForward | ControlEvent::JumpBack => {
                if !self.is_running() {
                    let back = match ev {
                        ControlEvent::JumpBack => true,
                        _ => false,
                    };
                    let old_reverse = self.reverse;
                    self.reverse = back;
                    let speed: Seconds = self.speed.get();
                    let amount: i64 = if back {
                        if self.current.timestamp < i64::MIN + speed.0 {
                            self.current.timestamp - i64::MIN
                        } else {
                            speed.0
                        }
                    } else {
                        if self.current.timestamp > i64::MAX - speed.0 {
                            i64::MAX - self.current.timestamp
                        } else {
                            speed.0
                        }
                    };
                    self.advance_by(Seconds(amount), MAX_STEPS_PER_FRAME);
                    self.reverse = old_reverse;
                }
            },
        }
    }

    /// Law: changing speed on a running controller restarts it. The
    /// controller after `adjust_speed(new, now)` is exactly the controller
    /// that was freshly `start`ed at `now` with the new speed already
    /// selected, so a later `advance` sees no memory of the old speed.
    pub proof fn lemma_speed_change_restart(
        m: SimModel,
        speeds: Seq<Seconds>,
        idx: int,
        now: i64,
        later: i64,
    )
        requires
            m.state is Running,
        ensures
            ({
                let changed = spec_adjust_speed(m, speeds, idx, now);
                let fresh = spec_start(
                    SimModel { speeds, speed_idx: idx, state: State::Stopped, ..m },
                    now,
                );
                &&& changed == fresh
                &&& spec_advance(changed, later) == spec_advance(fresh, later)
            }),
    {
    }

    /// Law: one `advance` uses at most `MAX_STEPS_PER_FRAME` integration
    /// steps, and whenever the gap to the wall-clock-implied target is
    /// non-negative and within `ADVANCE_CAP_NANOS`, the resulting timestamp
    /// equals that target — `start_timestamp ± speed * elapsed` — exactly,
    /// no matter how hard the step-count cap binds.
    pub proof fn lemma_advance_bounded_and_exact(m: SimModel, si: StartInfo, now: i64)
        requires
            model_wf(m),
            m.state == State::Running(si),
        ensures
            spec_num_steps(
                spec_advance_amount(m, si, now),
                spec_target_step(model_speed(m)),
            ) <= MAX_STEPS_PER_FRAME as int,
            ({
                let target = spec_advance_target(m, si, now);
                let raw = if m.reverse {
                    m.current.timestamp - target
                } else {
                    target - m.current.timestamp
                };
                (0 <= raw <= ADVANCE_CAP_NANOS as int) ==> spec_advance(
                    m,
                    now,
                ).current.timestamp == target
            }),
    {
        let speed = model_speed(m);
        let tstep = spec_target_step(speed);
        assert(SPEED_MIN_NANOS as int / (MAX_STEPS_PER_WALL_SECOND as int) >= 1);
        vstd::arithmetic::div_mod::lemma_div_is_ordered(
            SPEED_MIN_NANOS as int,
            speed,
            MAX_STEPS_PER_WALL_SECOND as int,
        );
        vstd::arithmetic::div_mod::lemma_div_is_ordered(
            speed,
            SPEED_MAX_NANOS as int,
            MIN_STEPS_PER_WALL_SECOND as int,
        );
        assert(1 <= tstep <= DT_LIMIT as int);
        let amount = spec_advance_amount(m, si, now);
        lemma_steps_cover_amount(amount, tstep);
        let n = spec_num_steps(amount, tstep);
        let target = spec_advance_target(m, si, now);
        let raw = if m.reverse {
            m.current.timestamp - target
        } else {
            target - m.current.timestamp
        };
        if 0 <= raw <= ADVANCE_CAP_NANOS as int {
            assert(amount == raw);
            lemma_multi_step_timestamp(m.current, amount, n, m.reverse);
        }
    }

    /// Law: from `Stopped`, a jump moves the current timestamp by exactly
    /// one speed-unit of simulated time in the requested direction, leaves
    /// the controller stopped, and restores the reverse flag and the speed
    /// selection untouched.
    pub proof fn lemma_jump_exact(m: SimModel, now: i64, back: bool)
        requires
            model_wf(m),
            m.state == State::Stopped,
            !back ==> m.current.timestamp + model_speed(m) <= i64::MAX,
            back ==> m.current.timestamp - model_speed(m) >= i64::MIN,
        ensures
            ({
                let ev = if back {
                    ControlEvent::JumpBack
                } else {
                    ControlEvent::JumpForward
                };
                let r = spec_handle_event(m, ev, now);
                &&& r.state == State::Stopped
                &&& r.reverse == m.reverse
                &&& r.speeds == m.speeds
                &&& r.speed_idx == m.speed_idx
                &&& r.current.wf()
                &&& r.current.timestamp == if back {
                    m.current.timestamp - model_speed(m)
                } else {
                    m.current.timestamp + model_speed(m)
                }
            }),
    {
        let speed = model_speed(m);
        assert(spec_jump_amount(m, back) == speed);
        assert(speed <= MAX_STEPS_PER_FRAME as int * (DT_LIMIT as int));
        lemma_multi_step_timestamp(m.current, speed, MAX_STEPS_PER_FRAME as int, back);
    }

    /// A read-only status snapshot for observers: the current timestamp,
    /// whether the controller runs, the selected speed and the direction.
    pub fn status(&self) -> (r: SimulationStatus)
        requires
            self.wf(),
        ensures
            r.timestamp == self.current.timestamp,
            r.running == (self.state is Running),
            r.speed.values() == self.model().speeds,
            r.speed.idx() == self.model().speed_idx,
            r.reverse == self.reverse,
    {
        SimulationStatus {
            timestamp: self.current.timestamp,
            running: self.is_running(),
            speed: self.speed.clone(),
            reverse: self.reverse,
        }
    }
}

} // verus!
