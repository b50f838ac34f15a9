use battnotify::config::{default_message, default_title, Config, ConfigError};
use battnotify::decimal::format_decimal;
use battnotify::job::{
    runtime_below_limit, JobAction, JobError, JobEvent, NotificationError, PollingJob,
    PowerQueryError,
};
use battnotify::schedule::{build_schedule, cadence_text, LoopAction, LoopPhase, MainLoop, ScheduleError};

fn job(interval: &str, limit: &str, message: Option<String>) -> PollingJob {
    PollingJob::new(Config::from_text(interval, limit, default_title(), message).unwrap())
}

/// Runs the job once against fixed answers, as the watcher's driver does.
fn drive(
    job: &PollingJob,
    power: Result<bool, PowerQueryError>,
    runtime: Result<u64, PowerQueryError>,
    shown: Result<(), NotificationError>,
) -> Vec<JobAction> {
    let mut actions = Vec::new();
    let mut action = job.step(&JobEvent::Started);
    loop {
        let event = match &action {
            JobAction::QueryPowerSource => JobEvent::PowerSource(power),
            JobAction::QueryRuntime => JobEvent::Runtime(runtime),
            JobAction::Notify { .. } => JobEvent::Shown(shown),
            JobAction::Finish | JobAction::Abort(_) => {
                actions.push(action);
                return actions;
            }
        };
        actions.push(action);
        action = job.step(&event);
    }
}

fn notifications(actions: &[JobAction]) -> Vec<(String, String)> {
    actions
        .iter()
        .filter_map(|a| match a {
            JobAction::Notify { title, body } => Some((title.clone(), body.clone())),
            _ => None,
        })
        .collect()
}

#[test]
fn default_message_for_ten_minutes() {
    assert_eq!(default_message(10), "You only have 10 minutes left!");
    let c = Config::new(30, 10, default_title(), None).unwrap();
    assert_eq!(c.message, "You only have 10 minutes left!");
    assert_eq!(c.title, "Battery critical");
}

#[test]
fn explicit_message_is_kept() {
    let c = Config::new(30, 10, "t".to_string(), Some("plug in".to_string())).unwrap();
    assert_eq!(c.message, "plug in");
    assert_eq!(c.title, "t");
}

#[test]
fn scenario_on_battery_below_limit_notifies() {
    let j = job("5", "10", None);
    let run = drive(&j, Ok(false), Ok(300), Ok(()));
    assert_eq!(
        notifications(&run),
        vec![("Battery critical".to_string(), "You only have 10 minutes left!".to_string())]
    );
    assert!(matches!(run.last(), Some(JobAction::Finish)));
    assert_eq!(run.len(), 4);
}

#[test]
fn scenario_on_ac_power_is_quiet() {
    let j = job("5", "10", None);
    let run = drive(&j, Ok(true), Ok(120), Ok(()));
    assert!(notifications(&run).is_empty());
    assert_eq!(run.len(), 2);
    assert!(matches!(run[0], JobAction::QueryPowerSource));
    assert!(matches!(run[1], JobAction::Finish));
}

#[test]
fn scenario_power_query_failure_aborts() {
    let j = job("5", "10", None);
    let run = drive(&j, Err(PowerQueryError), Ok(10), Ok(()));
    assert!(notifications(&run).is_empty());
    assert!(matches!(run.last(), Some(JobAction::Abort(JobError::PowerQuery))));
}

#[test]
fn runtime_query_failure_aborts() {
    let j = job("5", "10", None);
    let run = drive(&j, Ok(false), Err(PowerQueryError), Ok(()));
    assert!(notifications(&run).is_empty());
    assert!(matches!(run.last(), Some(JobAction::Abort(JobError::PowerQuery))));
}

#[test]
fn notification_failure_aborts() {
    let j = job("5", "10", None);
    let run = drive(&j, Ok(false), Ok(10), Err(NotificationError));
    assert_eq!(notifications(&run).len(), 1);
    assert!(matches!(run.last(), Some(JobAction::Abort(JobError::Notification))));
}

#[test]
fn on_ac_power_never_notifies_at_any_runtime() {
    let j = job("5", "10", None);
    for remaining in [0u64, 1, 599, 600, 601, u64::MAX] {
        assert!(notifications(&drive(&j, Ok(true), Ok(remaining), Ok(()))).is_empty());
    }
}

#[test]
fn on_battery_threshold_edges() {
    let j = job("5", "10", Some("low".to_string()));
    assert_eq!(notifications(&drive(&j, Ok(false), Ok(0), Ok(()))).len(), 1);
    assert_eq!(notifications(&drive(&j, Ok(false), Ok(599), Ok(()))).len(), 1);
    assert!(notifications(&drive(&j, Ok(false), Ok(600), Ok(()))).is_empty());
    assert!(notifications(&drive(&j, Ok(false), Ok(601), Ok(()))).is_empty());
    let n = notifications(&drive(&j, Ok(false), Ok(1), Ok(())));
    assert_eq!(n, vec![("Battery critical".to_string(), "low".to_string())]);
}

#[test]
fn repeated_invocations_decide_alike() {
    let j = job("5", "10", None);
    let first = notifications(&drive(&j, Ok(false), Ok(300), Ok(())));
    for _ in 0..5 {
        assert_eq!(notifications(&drive(&j, Ok(false), Ok(300), Ok(()))), first);
    }
    let quiet = drive(&j, Ok(false), Ok(900), Ok(()));
    for _ in 0..5 {
        assert_eq!(drive(&j, Ok(false), Ok(900), Ok(())).len(), quiet.len());
    }
}

#[test]
fn runtime_comparison_values() {
    assert!(runtime_below_limit(10, 599));
    assert!(!runtime_below_limit(10, 600));
    assert!(!runtime_below_limit(0, 0));
    assert!(runtime_below_limit(u64::MAX, u64::MAX));
    assert!(runtime_below_limit(u64::MAX / 60 + 1, u64::MAX));
    assert!(!runtime_below_limit(u64::MAX / 60, u64::MAX));
}

#[test]
fn decimal_text_values() {
    assert_eq!(format_decimal(0), "0");
    assert_eq!(format_decimal(7), "7");
    assert_eq!(format_decimal(10), "10");
    assert_eq!(format_decimal(12345), "12345");
    assert_eq!(format_decimal(u64::MAX), "18446744073709551615");
}

fn interval_of(text: &str) -> Option<u64> {
    Config::from_text(text, "10", default_title(), None)
        .ok()
        .map(|c| c.interval_seconds)
}

#[test]
fn interval_text_values() {
    assert_eq!(interval_of("42"), Some(42));
    assert_eq!(interval_of("+5"), Some(5));
    assert_eq!(interval_of("007"), Some(7));
    assert_eq!(interval_of("18446744073709551615"), Some(u64::MAX));
    for bad in ["18446744073709551616", "", "+", "-1", "1.5", " 1", "ten"] {
        assert_eq!(
            Config::from_text(bad, "10", default_title(), None).err(),
            Some(ConfigError::InvalidInterval)
        );
    }
}

#[test]
fn config_errors() {
    let t = || default_title();
    assert_eq!(Config::from_text("x", "10", t(), None).err(), Some(ConfigError::InvalidInterval));
    assert_eq!(Config::from_text("x", "y", t(), None).err(), Some(ConfigError::InvalidInterval));
    assert_eq!(Config::from_text("5", "", t(), None).err(), Some(ConfigError::InvalidLimit));
    assert_eq!(Config::from_text("0", "10", t(), None).err(), Some(ConfigError::ZeroInterval));
    assert_eq!(Config::from_text("0", "0", t(), None).err(), Some(ConfigError::ZeroInterval));
    assert_eq!(Config::from_text("5", "0", t(), None).err(), Some(ConfigError::ZeroLimit));
    assert_eq!(Config::new(0, 1, t(), None).err(), Some(ConfigError::ZeroInterval));
    assert_eq!(Config::new(1, 0, t(), None).err(), Some(ConfigError::ZeroLimit));
}

#[test]
fn config_from_text_values() {
    let c = Config::from_text("+30", "15", default_title(), None).unwrap();
    assert_eq!(c.interval_seconds, 30);
    assert_eq!(c.limit_minutes, 15);
    assert_eq!(c.message, "You only have 15 minutes left!");
}

#[test]
fn cadence_expression_text() {
    assert_eq!(cadence_text(5), "1/5 * * * * *");
    assert_eq!(cadence_text(30), "1/30 * * * * *");
}

#[test]
fn schedule_for_intervals() {
    assert!(build_schedule(5).is_ok());
    assert!(build_schedule(30).is_ok());
    assert!(matches!(build_schedule(0), Err(ScheduleError::ZeroInterval)));
    assert!(matches!(build_schedule(u64::MAX), Err(ScheduleError::Rejected)));
}

#[test]
fn main_loop_alternates_tick_and_sleep() {
    let mut l = MainLoop::new(5);
    assert_eq!(l.phase, LoopPhase::Idle);
    let mut slept = 0u64;
    for i in 0..10 {
        let a = l.step();
        if i % 2 == 0 {
            assert_eq!(a, LoopAction::Tick);
            assert_eq!(slept, 5 * (i / 2));
        } else {
            assert_eq!(a, LoopAction::Sleep { seconds: 5 });
            slept += 5;
        }
    }
    assert_eq!(l.interval_seconds, 5);
}
