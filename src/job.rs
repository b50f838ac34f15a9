//! The polling job: what one tick does with the power state.
//!
//! The job never touches the machine itself. Each call of [`PollingJob::step`]
//! takes what the last action brought back and names the next action; the
//! caller performs it and reports the outcome.

use vstd::prelude::*;
use crate::config::Config;

verus! {

/// The power source or the battery runtime could not be read.
#[derive(Debug, Clone, Copy, PartialEq, Eq, Structural)]
pub struct PowerQueryError;

/// The notification could not be shown.
#[derive(Debug, Clone, Copy, PartialEq, Eq, Structural)]
pub struct NotificationError;

/// Why a run of the job stopped short; both are fatal to the watcher.
#[derive(Debug, Clone, Copy, PartialEq, Eq, Structural)]
pub enum JobError {
    PowerQuery,
    Notification,
}

/// What the caller reports to the job.
#[derive(Debug, Clone, Copy)]
pub enum JobEvent {
    /// The scheduler invoked the job.
    Started,
    /// Whether the machine runs on external power.
    PowerSource(Result<bool, PowerQueryError>),
    /// The estimated battery runtime left, in whole seconds.
    Runtime(Result<u64, PowerQueryError>),
    /// The notification was shown, or not.
    Shown(Result<(), NotificationError>),
}

/// What the job asks the caller to do next.
#[derive(Debug)]
pub enum JobAction {
    /// Ask whether the machine runs on external power.
    QueryPowerSource,
    /// Ask how many seconds of battery runtime are left.
    QueryRuntime,
    /// Show a notification.
    Notify { title: String, body: String },
    /// This run is over.
    Finish,
    /// Stop the watcher.
    Abort(JobError),
}

/// The job bound to its configuration; it keeps no other state.
pub struct PollingJob {
    pub config: Config,
}

/// Whether `remaining_seconds` of runtime is under a limit of `limit_minutes`.
pub open spec fn below_limit(limit_minutes: nat, remaining_seconds: nat) -> bool {
    remaining_seconds < limit_minutes * 60
}

/// Whether one run warns, given the power source and the runtime left.
pub open spec fn warns(limit_minutes: nat, on_ac_power: bool, remaining_seconds: nat) -> bool {
    !on_ac_power && below_limit(limit_minutes, remaining_seconds)
}

/// Compares the runtime left with the limit, for every pair of values.
pub fn runtime_below_limit(limit_minutes: u64, remaining_seconds: u64) -> (r: bool)
    ensures
        r == below_limit(limit_minutes as nat, remaining_seconds as nat),
{
    if limit_minutes > u64::MAX / 60 {
        assert(limit_minutes * 60 > u64::MAX) by (nonlinear_arith)
            requires
                limit_minutes > u64::MAX / 60,
        ;
        true
    } else {
        assert(limit_minutes * 60 <= u64::MAX) by (nonlinear_arith)
            requires
                limit_minutes <= u64::MAX / 60,
        ;
        remaining_seconds < limit_minutes * 60
    }
}

impl PollingJob {
    /// The action that follows `event`.
    pub open spec fn next(&self, event: JobEvent) -> JobAction {
        match event {
            JobEvent::Started => JobAction::QueryPowerSource,
            JobEvent::PowerSource(Err(_)) => JobAction::Abort(JobError::PowerQuery),
            JobEvent::PowerSource(Ok(true)) => JobAction::Finish,
            JobEvent::PowerSource(Ok(false)) => JobAction::QueryRuntime,
            JobEvent::Runtime(Err(_)) => JobAction::Abort(JobError::PowerQuery),
            JobEvent::Runtime(Ok(s)) => if below_limit(self.config.limit_minutes as nat, s as nat) {
                JobAction::Notify { title: self.config.title, body: self.config.message }
            } else {
                JobAction::Finish
            },
            JobEvent::Shown(Ok(())) => JobAction::Finish,
            JobEvent::Shown(Err(_)) => JobAction::Abort(JobError::Notification),
        }
    }

    /// The job for `config`.
    pub fn new(config: Config) -> (r: PollingJob)
        ensures
            r.config == config,
    {
        PollingJob { config }
    }

    /// Takes what the last action brought back and names the next action.
    /// The power source is asked first; the runtime only off external power;
    /// a notification with the configured title and message only when the
    /// runtime is under the limit. Any failure aborts.
    pub fn step(&self, event: &JobEvent) -> (r: JobAction)
        ensures
            r == self.next(*event),
    {
        match event {
            JobEvent::Started => JobAction::QueryPowerSource,
            JobEvent::PowerSource(Err(_)) => JobAction::Abort(JobError::PowerQuery),
            JobEvent::PowerSource(Ok(on_ac_power)) => if *on_ac_power {
                JobAction::Finish
            } else {
                JobAction::QueryRuntime
            },
            JobEvent::Runtime(Err(_)) => JobAction::Abort(JobError::PowerQuery),
            JobEvent::Runtime(Ok(s)) => if runtime_below_limit(self.config.limit_minutes, *s) {
                JobAction::Notify {
                    title: self.config.title.clone(),
                    body: self.config.message.clone(),
                }
            } else {
                JobAction::Finish
            },
            JobEvent::Shown(Ok(())) => JobAction::Finish,
            JobEvent::Shown(Err(_)) => JobAction::Abort(JobError::Notification),
        }
    }
}

/// The event that answers `action`, when the power source reads `power`, the
/// runtime reads `runtime` and showing a notification ends in `shown`.
pub open spec fn reply(
    action: JobAction,
    power: Result<bool, PowerQueryError>,
    runtime: Result<u64, PowerQueryError>,
    shown: Result<(), NotificationError>,
) -> JobEvent {
    match action {
        JobAction::QueryPowerSource => JobEvent::PowerSource(power),
        JobAction::QueryRuntime => JobEvent::Runtime(runtime),
        JobAction::Notify { .. } => JobEvent::Shown(shown),
        _ => JobEvent::Started,
    }
}

/// Whether the runtime was read and is under a limit of `limit_minutes`.
pub open spec fn read_below_limit(limit_minutes: nat, runtime: Result<u64, PowerQueryError>) -> bool {
    match runtime {
        Ok(s) => below_limit(limit_minutes, s as nat),
        Err(_) => false,
    }
}

/// Whether `action` ends a run.
pub open spec fn ends_run(action: JobAction) -> bool {
    action is Finish || action is Abort
}

impl PollingJob {
    /// The actions that follow `action`, itself included, for at most `fuel`
    /// more replies.
    pub open spec fn run_from(
        &self,
        action: JobAction,
        power: Result<bool, PowerQueryError>,
        runtime: Result<u64, PowerQueryError>,
        shown: Result<(), NotificationError>,
        fuel: nat,
    ) -> Seq<JobAction>
        decreases fuel,
    {
        if ends_run(action) || fuel == 0 {
            seq![action]
        } else {
            seq![action] + self.run_from(
                self.next(reply(action, power, runtime, shown)),
                power,
                runtime,
                shown,
                (fuel - 1) as nat,
            )
        }
    }

    /// The actions of one invocation, from the start, against fixed answers.
    pub open spec fn run(
        &self,
        power: Result<bool, PowerQueryError>,
        runtime: Result<u64, PowerQueryError>,
        shown: Result<(), NotificationError>,
    ) -> Seq<JobAction> {
        self.run_from(self.next(JobEvent::Started), power, runtime, shown, 3)
    }

    /// The runs of `count` invocations against the same answers.
    pub open spec fn runs(
        &self,
        power: Result<bool, PowerQueryError>,
        runtime: Result<u64, PowerQueryError>,
        shown: Result<(), NotificationError>,
        count: nat,
    ) -> Seq<Seq<JobAction>>
        decreases count,
    {
        if count == 0 {
            Seq::empty()
        } else {
            self.runs(power, runtime, shown, (count - 1) as nat).push(
                self.run(power, runtime, shown),
            )
        }
    }
}

/// A run of the job against fixed answers, spelled out: it asks the power
/// source first, stops on external power or on a failed query, asks the
/// runtime otherwise, and warns once with the configured title and message
/// exactly when the runtime is under the limit.
pub proof fn lemma_run_shape(
    job: PollingJob,
    power: Result<bool, PowerQueryError>,
    runtime: Result<u64, PowerQueryError>,
    shown: Result<(), NotificationError>,
)
    ensures
        ({
            let r = job.run(power, runtime, shown);
            let warning = JobAction::Notify { title: job.config.title, body: job.config.message };
            &&& r[0] == JobAction::QueryPowerSource
            &&& ends_run(r.last())
            &&& power is Err ==> r == seq![
                JobAction::QueryPowerSource,
                JobAction::Abort(JobError::PowerQuery),
            ]
            &&& power == Ok::<bool, PowerQueryError>(true) ==> r == seq![
                JobAction::QueryPowerSource,
                JobAction::Finish,
            ]
            &&& power == Ok::<bool, PowerQueryError>(false) && runtime is Err ==> r == seq![
                JobAction::QueryPowerSource,
                JobAction::QueryRuntime,
                JobAction::Abort(JobError::PowerQuery),
            ]
            &&& power == Ok::<bool, PowerQueryError>(false) && runtime is Ok && !read_below_limit(
                job.config.limit_minutes as nat,
                runtime,
            ) ==> r == seq![JobAction::QueryPowerSource, JobAction::QueryRuntime, JobAction::Finish]
            &&& power == Ok::<bool, PowerQueryError>(false) && read_below_limit(
                job.config.limit_minutes as nat,
                runtime,
            ) ==> r == seq![
                JobAction::QueryPowerSource,
                JobAction::QueryRuntime,
                warning,
                if shown is Ok {
                    JobAction::Finish
                } else {
                    JobAction::Abort(JobError::Notification)
                },
            ]
        }),
{
    let a0 = job.next(JobEvent::Started);
    let a1 = job.next(reply(a0, power, runtime, shown));
    let a2 = job.next(reply(a1, power, runtime, shown));
    let a3 = job.next(reply(a2, power, runtime, shown));
    let r3 = job.run_from(a3, power, runtime, shown, 0);
    let r2 = job.run_from(a2, power, runtime, shown, 1);
    let r1 = job.run_from(a1, power, runtime, shown, 2);
    let r = job.run(power, runtime, shown);
    assert(r3 == seq![a3]);
    if ends_run(a2) {
        assert(r2 == seq![a2]);
    } else {
        assert(r2 =~= seq![a2, a3]);
    }
    if ends_run(a1) {
        assert(r1 == seq![a1]);
    } else if ends_run(a2) {
        assert(r1 =~= seq![a1, a2]);
    } else {
        assert(r1 =~= seq![a1, a2, a3]);
    }
    assert(r =~= seq![a0] + r1);
    match power {
        Err(_) => {
            assert(r =~= seq![a0, a1]);
        },
        Ok(true) => {
            assert(r =~= seq![a0, a1]);
        },
        Ok(false) => {
            match runtime {
                Err(_) => {
                    assert(r =~= seq![a0, a1, a2]);
                },
                Ok(s) => {
                    if below_limit(job.config.limit_minutes as nat, s as nat) {
                        assert(r =~= seq![a0, a1, a2, a3]);
                    } else {
                        assert(r =~= seq![a0, a1, a2]);
                    }
                },
            }
        },
    }
}

/// On external power a run never warns, whatever the runtime reads.
pub proof fn lemma_on_ac_power_never_warns(
    job: PollingJob,
    runtime: Result<u64, PowerQueryError>,
    shown: Result<(), NotificationError>,
)
    ensures
        forall|i: int|
            0 <= i < job.run(Ok(true), runtime, shown).len() ==> !(#[trigger] job.run(
                Ok(true),
                runtime,
                shown,
            )[i] is Notify),
{
    lemma_run_shape(job, Ok(true), runtime, shown);
}

/// On battery with less runtime than the limit, a run warns exactly once,
/// with the configured title and message.
pub proof fn lemma_below_limit_warns_once(
    job: PollingJob,
    remaining_seconds: u64,
    shown: Result<(), NotificationError>,
)
    requires
        (remaining_seconds as nat) < job.config.limit_minutes * 60,
    ensures
        ({
            let r = job.run(Ok(false), Ok(remaining_seconds), shown);
            &&& r.contains(JobAction::Notify { title: job.config.title, body: job.config.message })
            &&& forall|i: int, j: int|
                0 <= i < r.len() && 0 <= j < r.len() && #[trigger] r[i] is Notify
                    && #[trigger] r[j] is Notify ==> i == j
        }),
{
    lemma_run_shape(job, Ok(false), Ok(remaining_seconds), shown);
    let r = job.run(Ok(false), Ok(remaining_seconds), shown);
    assert(r[2] == JobAction::Notify { title: job.config.title, body: job.config.message });
}

/// On battery with at least the limit's runtime left, a run does not warn.
pub proof fn lemma_at_or_above_limit_is_quiet(
    job: PollingJob,
    remaining_seconds: u64,
    shown: Result<(), NotificationError>,
)
    requires
        (remaining_seconds as nat) >= job.config.limit_minutes * 60,
    ensures
        forall|i: int|
            0 <= i < job.run(Ok(false), Ok(remaining_seconds), shown).len() ==> !(#[trigger] job.run(
                Ok(false),
                Ok(remaining_seconds),
                shown,
            )[i] is Notify),
{
    lemma_run_shape(job, Ok(false), Ok(remaining_seconds), shown);
}

/// Invoking the job any number of times against the same answers makes the
/// same run every time: nothing carries over from one invocation to the next.
pub proof fn lemma_repeated_runs_agree(
    job: PollingJob,
    power: Result<bool, PowerQueryError>,
    runtime: Result<u64, PowerQueryError>,
    shown: Result<(), NotificationError>,
    count: nat,
)
    ensures
        job.runs(power, runtime, shown, count).len() == count,
        forall|i: int|
            0 <= i < count ==> #[trigger] job.runs(power, runtime, shown, count)[i] == job.run(
                power,
                runtime,
                shown,
            ),
    decreases count,
{
    if count > 0 {
        lemma_repeated_runs_agree(job, power, runtime, shown, (count - 1) as nat);
        let prev = job.runs(power, runtime, shown, (count - 1) as nat);
        let all = job.runs(power, runtime, shown, count);
        assert forall|i: int| 0 <= i < count implies #[trigger] all[i] == job.run(
            power,
            runtime,
            shown,
        ) by {
            if i < count - 1 {
                assert(all[i] == prev[i]);
            }
        }
    }
}

} // verus!
