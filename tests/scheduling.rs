use std::cell::Cell;
use std::collections::HashSet;

use allowance_core::tasks::{
    period_index_text, AllowancePayer, MultipleErrors, Scheduled, ScheduledTask, Step, Task,
    TaskError,
};
use allowance_core::{Timestamp, Weekday};

/// A task that counts its runs, and fails where asked to.
struct Counter {
    name: &'static str,
    runs: Cell<usize>,
    fails: bool,
}

impl Counter {
    fn new(name: &'static str, fails: bool) -> Counter {
        Counter { name, runs: Cell::new(0), fails }
    }
}

impl Task for Counter {
    fn name(&self) -> &str {
        self.name
    }
}

/// The label function of the custom cadences below.
type Label = fn(Timestamp) -> String;

/// Labels an instant by its period of 200 milliseconds since the Unix epoch.
fn bucket(t: Timestamp) -> String {
    format!("test-{}", period_index_text(t.millis(), 200))
}

/// Drives one wake against an in-memory table of markers, the way the database driver does.
fn wake(
    s: &Scheduled<Counter, Label>,
    markers: &mut HashSet<(String, String)>,
    now: &Timestamp,
) -> Result<(), MultipleErrors> {
    let mut outcomes = Vec::new();
    for index in 0..s.tasks().len() {
        let task = s.tasks()[index].task();
        let mut run = s.check_and_run(index, now);
        let mut pending = None;
        loop {
            let report = match run.current() {
                Step::Check => Ok(markers.contains(&(run.name().to_string(), run.label().to_string()))),
                Step::Run => {
                    task.runs.set(task.runs.get() + 1);
                    if task.fails {
                        Err(TaskError::DatabaseError(format!("{} failed", task.name)))
                    } else {
                        Ok(true)
                    }
                }
                Step::Record => {
                    pending = Some((run.name().to_string(), run.label().to_string()));
                    Ok(true)
                }
                Step::Executed => {
                    markers.insert(pending.take().unwrap());
                    break;
                }
                Step::Skipped | Step::Failed(_) => break,
            };
            run.advance(report);
        }
        outcomes.push(run.outcome());
    }
    MultipleErrors::collect(outcomes)
}

#[test]
fn mod_run_simple() {
    let s: Scheduled<Counter, Label> = Scheduled::new().with(ScheduledTask::Daily(Counter::new("test-task", false)));
    let mut markers = HashSet::new();
    wake(&s, &mut markers, &Timestamp::now()).unwrap();
    assert_eq!(s.tasks()[0].task().runs.get(), 1);
}

#[test]
fn run_multiple() {
    let s: Scheduled<Counter, Label> = Scheduled::new()
        .with(ScheduledTask::Daily(Counter::new("test-task-1", false)))
        .with(ScheduledTask::Daily(Counter::new("test-task-2", false)));
    let mut markers = HashSet::new();
    wake(&s, &mut markers, &Timestamp::now()).unwrap();
    assert_eq!(s.tasks()[0].task().runs.get(), 1);
    assert_eq!(s.tasks()[1].task().runs.get(), 1);
}

#[test]
fn run_concurrently() {
    let s: Scheduled<Counter, Label> = Scheduled::new().with(ScheduledTask::Daily(Counter::new("test-task", false)));
    let mut markers = HashSet::new();
    let timestamp = Timestamp::now();
    wake(&s, &mut markers, &timestamp).unwrap();
    assert_eq!(s.tasks()[0].task().runs.get(), 1);
    wake(&s, &mut markers, &timestamp).unwrap();
    assert_eq!(s.tasks()[0].task().runs.get(), 1);

    let timestamp = Timestamp::from_parts(
        timestamp.seconds + 86_400,
        timestamp.nanoseconds,
        timestamp.offset,
    )
    .unwrap();
    wake(&s, &mut markers, &timestamp).unwrap();
    assert_eq!(s.tasks()[0].task().runs.get(), 2);
}

#[test]
fn failing_task_does_not_stop_others() {
    let s: Scheduled<Counter, Label> = Scheduled::new()
        .with(ScheduledTask::Daily(Counter::new("broken", true)))
        .with(ScheduledTask::Daily(Counter::new("working", false)));
    let mut markers = HashSet::new();
    let now = "2024-03-05T10:00:00Z".parse::<Timestamp>().unwrap();
    let e = wake(&s, &mut markers, &now).unwrap_err();
    assert_eq!(e.0, vec![TaskError::DatabaseError("broken failed".into())]);
    assert_eq!(e.to_string(), "broken failed");
    assert!(markers.contains(&("working".to_string(), "2024-03-05".to_string())));
    assert!(!markers.contains(&("broken".to_string(), "2024-03-05".to_string())));

    // The failing task is tried again on the next wake of the same day.
    wake(&s, &mut markers, &now).unwrap_err();
    assert_eq!(s.tasks()[0].task().runs.get(), 2);
    assert_eq!(s.tasks()[1].task().runs.get(), 1);
}

#[test]
fn labels() {
    let daily: ScheduledTask<Counter, Label> = ScheduledTask::Daily(Counter::new("d", false));
    let t = "1970-01-01T23:30:00-02:00".parse::<Timestamp>().unwrap();
    assert_eq!(daily.label(&t), "1970-01-01");
    let t = "0099-12-31T00:00:00Z".parse::<Timestamp>().unwrap();
    assert_eq!(daily.label(&t), "0099-12-31");

    let custom: ScheduledTask<Counter, Label> =
        ScheduledTask::Custom(Counter::new("c", false), bucket, 200);
    let t = Timestamp::from_parts(1, 500_000_000, 0).unwrap();
    assert_eq!(custom.label(&t), "test-7");
    let t = Timestamp::from_parts(-1, 0, 0).unwrap();
    assert_eq!(custom.label(&t), "test--5");
    let t = Timestamp::from_parts(-1, 1_000_000, 0).unwrap();
    assert_eq!(custom.label(&t), "test--5");
    assert_eq!(period_index_text(-1, 200), "-1");
    assert_eq!(period_index_text(399, 200), "1");
    assert_eq!(custom.duration(), 200);
    assert_eq!(daily.duration(), 86_400_000);
}

#[test]
fn wake_interval_is_a_twentieth_of_the_shortest_period() {
    let s: Scheduled<Counter, Label> = Scheduled::new();
    assert_eq!(s.interval(), None);
    let s = s.with(ScheduledTask::Daily(Counter::new("d", false)));
    assert_eq!(s.interval(), Some(4_320_000));
    let s = s.with(ScheduledTask::Custom(Counter::new("c", false), bucket as Label, 200));
    assert_eq!(s.interval(), Some(10));
}

#[test]
fn steps() {
    let s: Scheduled<Counter, Label> = Scheduled::new().with(ScheduledTask::Daily(Counter::new("t", false)));
    let now = "2024-03-05T10:00:00Z".parse::<Timestamp>().unwrap();
    let mut run = s.check_and_run(0, &now);
    assert_eq!(run.label(), "2024-03-05");
    assert_eq!(run.name(), "t");
    assert_eq!(run.recorded_at(), now);
    assert_eq!(run.current(), &Step::Check);
    run.advance(Ok(false));
    assert_eq!(run.current(), &Step::Run);
    run.advance(Ok(true));
    assert_eq!(run.current(), &Step::Record);
    run.advance(Err(TaskError::DatabaseError("disk full".into())));
    assert_eq!(run.current(), &Step::Failed(TaskError::DatabaseError("disk full".into())));
    run.advance(Ok(true));
    assert_eq!(run.outcome(), Err(TaskError::DatabaseError("disk full".into())));

    let mut run = s.check_and_run(0, &now);
    run.advance(Ok(true));
    assert_eq!(run.current(), &Step::Skipped);
    assert_eq!(run.outcome(), Ok(()));
}

#[test]
fn multiple_errors() {
    let e = MultipleErrors::collect(vec![
        Err(TaskError::DatabaseError("a".into())),
        Ok(()),
        Err(TaskError::DatabaseError("b".into())),
        Err(TaskError::DatabaseError("c".into())),
    ])
    .unwrap_err();
    assert_eq!(e.to_string(), "a, b, c");
    assert_eq!(MultipleErrors::collect(vec![Ok(()), Ok(())]), Ok(()));
}

#[test]
fn allowance_payer_pays_on_the_weekday() {
    let payer = AllowancePayer;
    assert_eq!(payer.name(), "allowance-payer");
    let thursday = "1970-01-01T01:00:00Z".parse::<Timestamp>().unwrap();
    let friday = "1970-01-02T01:00:00Z".parse::<Timestamp>().unwrap();
    assert_eq!(payer.schedule(&thursday).0, Weekday::Thu);
    assert_eq!(payer.schedule(&friday).0, Weekday::Fri);
}

#[test]
fn checked_start_refuses_unusable_schedules() {
    let now = "2024-03-05T10:00:00Z".parse::<Timestamp>().unwrap();
    let s: Scheduled<Counter, Label> = Scheduled::new()
        .with(ScheduledTask::Daily(Counter::new("a", false)))
        .with(ScheduledTask::Daily(Counter::new("b", false)));
    let run = s.check_and_run_checked(1, &now).unwrap();
    assert_eq!(run.name(), "b");
    assert_eq!(run.label(), "2024-03-05");
    assert!(s.check_and_run_checked(2, &now).is_none());

    let shared: Scheduled<Counter, Label> = Scheduled::new()
        .with(ScheduledTask::Daily(Counter::new("a", false)))
        .with(ScheduledTask::Daily(Counter::new("a", false)));
    assert!(shared.check_and_run_checked(0, &now).is_none());

    let empty: Scheduled<Counter, Label> = Scheduled::new()
        .with(ScheduledTask::Daily(Counter::new("a", false)))
        .with(ScheduledTask::Custom(Counter::new("c", false), bucket as Label, 0));
    assert!(empty.check_and_run_checked(0, &now).is_none());

    let far = Timestamp { seconds: i64::MAX, nanoseconds: 0, offset: 0 };
    assert!(s.check_and_run_checked(0, &far).is_none());
}
