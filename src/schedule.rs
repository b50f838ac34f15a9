//! The cadence of the watcher: the schedule expression its job is registered
//! with, and the tick-then-sleep main loop.

use vstd::prelude::*;
use job_scheduler::Schedule;
use crate::decimal::{append_decimal, decimal};

verus! {

#[verifier::external_type_specification]
#[verifier::external_body]
pub struct ExSchedule(Schedule);

/// The second-resolution schedule expression that fires every
/// `interval_seconds` seconds, starting at second one of each minute.
pub open spec fn cadence_expression(interval_seconds: nat) -> Seq<char> {
    "1/"@ + decimal(interval_seconds) + " * * * * *"@
}

/// Whether `expr` is the cadence expression of a positive interval.
pub open spec fn is_cadence_expression(expr: Seq<char>) -> bool {
    exists|n: nat| n > 0 && expr == cadence_expression(n)
}

/// Whether the schedule parser accepts the expression `expr`.
pub uninterp spec fn schedule_accepts(expr: Seq<char>) -> bool;

/// Relies on `FromStr for cron::Schedule`, which job_scheduler re-exports:
/// whether an expression parses depends on its text alone. A period whose
/// step is zero makes it panic, which a positive interval rules out.
#[verifier::external_body]
fn parse_schedule(expr: &str) -> (r: Option<Schedule>)
    requires
        is_cadence_expression(expr@),
    ensures
        r.is_some() == schedule_accepts(expr@),
{
    expr.parse::<Schedule>().ok()
}

/// Why no schedule could be made for an interval.
#[derive(Debug, Clone, Copy, PartialEq, Eq, Structural)]
pub enum ScheduleError {
    /// The interval is zero seconds.
    ZeroInterval,
    /// The schedule parser refused the expression.
    Rejected,
}

/// The schedule expression for a cadence of `interval_seconds`.
pub fn cadence_text(interval_seconds: u64) -> (r: String)
    ensures
        r@ == cadence_expression(interval_seconds as nat),
{
    let mut r = String::from_str("1/");
    append_decimal(&mut r, interval_seconds);
    r.append(" * * * * *");
    r
}

/// The schedule that fires every `interval_seconds` seconds, parsed from its
/// cadence expression.
pub fn build_schedule(interval_seconds: u64) -> (r: Result<Schedule, ScheduleError>)
    ensures
        interval_seconds == 0 ==> r matches Err(ScheduleError::ZeroInterval),
        interval_seconds > 0 ==> (r is Ok <==> schedule_accepts(
            cadence_expression(interval_seconds as nat),
        )),
        interval_seconds > 0 && r is Err ==> r matches Err(ScheduleError::Rejected),
{
    if interval_seconds == 0 {
        return Err(ScheduleError::ZeroInterval);
    }
    let expr = cadence_text(interval_seconds);
    assert(is_cadence_expression(expr@)) by {
        assert(interval_seconds as nat > 0 && expr@ == cadence_expression(interval_seconds as nat));
    }
    match parse_schedule(expr.as_str()) {
        Some(s) => Ok(s),
        None => Err(ScheduleError::Rejected),
    }
}

/// Where the main loop stands.
#[derive(Debug, Clone, Copy, PartialEq, Eq, Structural)]
pub enum LoopPhase {
    /// Between ticks: the next step ticks.
    Idle,
    /// The due jobs have run: the next step sleeps.
    Ticking,
}

/// What the main loop asks its driver to do.
#[derive(Debug, Clone, Copy, PartialEq, Eq, Structural)]
pub enum LoopAction {
    /// Run the jobs that are due.
    Tick,
    /// Block for this many whole seconds.
    Sleep { seconds: u64 },
}

/// The tick-then-sleep loop that drives the scheduler.
#[derive(Debug, Clone, Copy, PartialEq, Eq, Structural)]
pub struct MainLoop {
    pub interval_seconds: u64,
    pub phase: LoopPhase,
}

/// The phase after a step taken in `phase`.
pub open spec fn next_phase(phase: LoopPhase) -> LoopPhase {
    match phase {
        LoopPhase::Idle => LoopPhase::Ticking,
        LoopPhase::Ticking => LoopPhase::Idle,
    }
}

/// The action of a step taken in `phase`.
pub open spec fn phase_action(phase: LoopPhase, interval_seconds: u64) -> LoopAction {
    match phase {
        LoopPhase::Idle => LoopAction::Tick,
        LoopPhase::Ticking => LoopAction::Sleep { seconds: interval_seconds },
    }
}

/// The actions of `count` steps taken from `phase`.
pub open spec fn loop_actions(phase: LoopPhase, interval_seconds: u64, count: nat) -> Seq<LoopAction>
    decreases count,
{
    if count == 0 {
        Seq::empty()
    } else {
        seq![phase_action(phase, interval_seconds)] + loop_actions(
            next_phase(phase),
            interval_seconds,
            (count - 1) as nat,
        )
    }
}

/// The seconds that `action` sleeps.
pub open spec fn sleep_seconds(action: LoopAction) -> nat {
    match action {
        LoopAction::Sleep { seconds } => seconds as nat,
        LoopAction::Tick => 0,
    }
}

/// The seconds slept over `actions`.
pub open spec fn slept(actions: Seq<LoopAction>) -> nat
    decreases actions.len(),
{
    if actions.len() == 0 {
        0
    } else {
        sleep_seconds(actions[0]) + slept(actions.drop_first())
    }
}

impl MainLoop {
    /// The interval is positive.
    pub open spec fn wf(&self) -> bool {
        self.interval_seconds > 0
    }

    /// A loop about to tick, that sleeps `interval_seconds` after each tick.
    pub fn new(interval_seconds: u64) -> (r: MainLoop)
        requires
            interval_seconds > 0,
        ensures
            r.wf(),
            r.interval_seconds == interval_seconds,
            r.phase == LoopPhase::Idle,
    {
        MainLoop { interval_seconds, phase: LoopPhase::Idle }
    }

    /// One step of the loop: a tick when idle, else a sleep of the interval.
    pub fn step(&mut self) -> (r: LoopAction)
        ensures
            r == phase_action(old(self).phase, old(self).interval_seconds),
            final(self).phase == next_phase(old(self).phase),
            final(self).interval_seconds == old(self).interval_seconds,
    {
        match self.phase {
            LoopPhase::Idle => {
                self.phase = LoopPhase::Ticking;
                LoopAction::Tick
            },
            LoopPhase::Ticking => {
                self.phase = LoopPhase::Idle;
                LoopAction::Sleep { seconds: self.interval_seconds }
            },
        }
    }
}

proof fn lemma_loop_actions_alternate(phase: LoopPhase, interval_seconds: u64, count: nat)
    ensures
        loop_actions(phase, interval_seconds, count).len() == count,
        forall|i: int|
            0 <= i < count ==> #[trigger] loop_actions(phase, interval_seconds, count)[i]
                == phase_action(if i % 2 == 0 { phase } else { next_phase(phase) }, interval_seconds),
    decreases count,
{
    if count > 0 {
        let rest = loop_actions(next_phase(phase), interval_seconds, (count - 1) as nat);
        lemma_loop_actions_alternate(next_phase(phase), interval_seconds, (count - 1) as nat);
        let all = loop_actions(phase, interval_seconds, count);
        assert forall|i: int| 0 <= i < count implies #[trigger] all[i] == phase_action(
            if i % 2 == 0 { phase } else { next_phase(phase) },
            interval_seconds,
        ) by {
            if i > 0 {
                assert(all[i] == rest[i - 1]);
                assert(next_phase(next_phase(phase)) == phase);
            }
        }
    }
}

proof fn lemma_slept_between_ticks(interval_seconds: u64, ticks: nat)
    ensures
        slept(loop_actions(LoopPhase::Idle, interval_seconds, 2 * ticks)) == ticks
            * interval_seconds,
    decreases ticks,
{
    if ticks > 0 {
        let t = (ticks - 1) as nat;
        lemma_slept_between_ticks(interval_seconds, t);
        let rest = loop_actions(LoopPhase::Idle, interval_seconds, 2 * t);
        let after_tick = loop_actions(LoopPhase::Ticking, interval_seconds, (2 * ticks - 1) as nat);
        let all = loop_actions(LoopPhase::Idle, interval_seconds, 2 * ticks);
        assert(after_tick.drop_first() =~= rest);
        assert(all.drop_first() =~= after_tick);
        assert(slept(after_tick) == interval_seconds + slept(rest));
        assert(slept(all) == slept(after_tick));
        assert(ticks * interval_seconds == t * interval_seconds + interval_seconds) by (
        nonlinear_arith)
            requires
                t + 1 == ticks,
        ;
    } else {
        assert(loop_actions(LoopPhase::Idle, interval_seconds, 0).len() == 0);
    }
}

/// Cadence of the main loop: from a fresh loop, steps alternate between a
/// tick and a sleep of exactly the interval, starting with a tick, so that
/// the tick that follows `ticks` earlier ones comes after exactly
/// `ticks` times the interval of sleep.
pub proof fn lemma_loop_cadence(interval_seconds: u64, count: nat, ticks: nat)
    requires
        interval_seconds > 0,
    ensures
        loop_actions(LoopPhase::Idle, interval_seconds, count).len() == count,
        forall|i: int|
            0 <= i < count ==> #[trigger] loop_actions(LoopPhase::Idle, interval_seconds, count)[i]
                == if i % 2 == 0 {
                LoopAction::Tick
            } else {
                LoopAction::Sleep { seconds: interval_seconds }
            },
        loop_actions(LoopPhase::Idle, interval_seconds, 2 * ticks + 1)[2 * ticks as int]
            == LoopAction::Tick,
        slept(loop_actions(LoopPhase::Idle, interval_seconds, 2 * ticks)) == ticks
            * interval_seconds,
{
    lemma_loop_actions_alternate(LoopPhase::Idle, interval_seconds, count);
    lemma_loop_actions_alternate(LoopPhase::Idle, interval_seconds, 2 * ticks + 1);
    lemma_slept_between_ticks(interval_seconds, ticks);
    let all = loop_actions(LoopPhase::Idle, interval_seconds, count);
    assert forall|i: int| 0 <= i < count implies #[trigger] all[i] == if i % 2 == 0 {
        LoopAction::Tick
    } else {
        LoopAction::Sleep { seconds: interval_seconds }
    } by {
        assert(all[i] == phase_action(
            if i % 2 == 0 { LoopPhase::Idle } else { LoopPhase::Ticking },
            interval_seconds,
        ));
    }
    assert((2 * ticks) as int % 2 == 0);
}

} // verus!
