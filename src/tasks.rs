//! Recurring maintenance tasks, run at most once per period.
//!
//! Each task is keyed by its name and the label of the period that holds the time of the wake:
//! inside one transaction the runner looks up the marker of that key, runs the task only where
//! there is none, then writes the marker and commits. The steps of that exchange are decided by
//! [`TaskRun`]; the database work of each step is done by the caller.
use vstd::prelude::*;

use crate::schedule::{weekday_number, Schedule, Weekday};
use crate::text::{same_text, padded, push_padded, push_signed_decimal, signed_decimal};
use crate::timestamp::{calendar_date, day_of_week, Timestamp};

verus! {

/// The length of a day, in milliseconds.
pub const DAY_MILLIS: u64 = 86_400_000;

/// A task that runs on a schedule.
pub trait Task {
    /// The name that keys the markers of a task; left unknown where an implementation does
    /// not state it.
    open spec fn spec_name(&self) -> Seq<char> {
        arbitrary()
    }

    /// The name that keys the markers of a task; no two tasks share one.
    fn name(&self) -> (r: &str)
        ensures
            r@ == self.spec_name(),
    ;
}

/// An error of one task's check-and-run.
#[derive(Clone, Debug, PartialEq)]
pub enum TaskError {
    /// The database failed, or the task's own work did.
    DatabaseError(String),
}

impl TaskError {
    /// The message of this error.
    pub fn to_string(&self) -> (r: String)
        ensures
            r@ == match *self {
                TaskError::DatabaseError(m) => m@,
            },
    {
        match self {
            TaskError::DatabaseError(m) => m.clone(),
        }
    }
}

/// The errors of the tasks that failed in one wake.
#[derive(Clone, Debug, PartialEq)]
pub struct MultipleErrors(pub Vec<TaskError>);

/// The messages of some errors, separated by `, `.
pub open spec fn joined(errors: Seq<TaskError>) -> Seq<char>
    decreases errors.len(),
{
    if errors.len() == 0 {
        Seq::empty()
    } else {
        let last = match errors.last() {
            TaskError::DatabaseError(m) => m@,
        };
        if errors.len() == 1 {
            last
        } else {
            joined(errors.drop_last()) + ", "@ + last
        }
    }
}

/// The errors among some results, in order.
pub open spec fn failures(results: Seq<Result<(), TaskError>>) -> Seq<TaskError>
    decreases results.len(),
{
    if results.len() == 0 {
        Seq::empty()
    } else {
        let rest = failures(results.drop_first());
        match results[0] {
            Ok(_) => rest,
            Err(e) => seq![e] + rest,
        }
    }
}

impl MultipleErrors {
    /// The outcome of a wake from the outcomes of its tasks: success where every task
    /// succeeded, else all the errors, in the order of the tasks.
    pub fn collect(results: Vec<Result<(), TaskError>>) -> (r: Result<(), MultipleErrors>)
        ensures
            r is Ok <==> failures(results@).len() == 0,
            r matches Err(m) ==> m.0@ == failures(results@),
    {
        let ghost all = results@;
        let mut results = results;
        let mut errors: Vec<TaskError> = Vec::new();
        while results.len() > 0
            invariant
                errors@ + failures(results@) == failures(all),
            decreases results@.len(),
        {
            let ghost before = results@;
            let first = results.remove(0);
            assert(results@ =~= before.drop_first());
            match first {
                Ok(()) => {},
                Err(e) => {
                    let ghost ge = e;
                    errors.push(e);
                    assert(errors@ + failures(results@) =~= errors@.drop_last() + (seq![ge]
                        + failures(results@)));
                },
            }
        }
        assert(errors@ + failures(results@) =~= errors@);
        if errors.len() == 0 {
            Ok(())
        } else {
            Err(MultipleErrors(errors))
        }
    }

    /// The messages of the errors, separated by `, `.
    pub fn to_string(&self) -> (r: String)
        ensures
            r@ == joined(self.0@),
    {
        let mut r = String::new();
        let mut i: usize = 0;
        while i < self.0.len()
            invariant
                i <= self.0@.len(),
                r@ == joined(self.0@.subrange(0, i as int)),
            decreases self.0@.len() - i,
        {
            let ghost pre = self.0@.subrange(0, i as int);
            let ghost next = self.0@.subrange(0, i + 1);
            assert(next.drop_last() =~= pre);
            if i > 0 {
                r.append(", ");
            }
            let m = self.0[i].to_string();
            r.append(m.as_str());
            proof {
                if i == 0 {
                    assert(pre.len() == 0);
                    assert(r@ =~= m@);
                }
            }
            i = i + 1;
        }
        assert(self.0@.subrange(0, self.0@.len() as int) =~= self.0@);
        r
    }
}

/// A task with its cadence.
pub enum ScheduledTask<T, F> {
    /// The task is run once a day; the period is labelled by its date.
    Daily(T),
    /// The task is run once in each period of the given number of milliseconds; the function
    /// gives the label of the period that holds an instant.
    Custom(T, F, u64),
}

/// The year as `{:04}` writes it: four digits, or a minus sign and three digits.
pub open spec fn year_text(y: int) -> Seq<char> {
    if y < 0 {
        seq!['-'] + padded((-y) as nat, 3)
    } else {
        padded(y as nat, 4)
    }
}

/// The label of a day: `YYYY-MM-DD`.
pub open spec fn date_label(date: (i32, u32, u32)) -> Seq<char> {
    year_text(date.0 as int) + "-"@ + padded(date.1 as nat, 2) + "-"@ + padded(date.2 as nat, 2)
}

/// The index of the period of `period` milliseconds that holds the instant `millis`.
pub open spec fn period_index(millis: int, period: int) -> int {
    millis / period
}

impl<T: Task, F: Fn(Timestamp) -> String> ScheduledTask<T, F> {
    /// Whether the period is not empty.
    pub open spec fn period_ok(&self) -> bool {
        match *self {
            ScheduledTask::Daily(_) => true,
            ScheduledTask::Custom(_, _, d) => d > 0,
        }
    }

    /// Whether the label function takes every instant.
    pub open spec fn label_total(&self) -> bool {
        match *self {
            ScheduledTask::Daily(_) => true,
            ScheduledTask::Custom(_, f, _) => forall|t: Timestamp| #[trigger] call_requires(f, (t,)),
        }
    }

    /// Whether the cadence is usable: a custom period is not empty, and its label function
    /// takes every instant.
    pub open spec fn wf(&self) -> bool {
        self.period_ok() && self.label_total()
    }

    /// The length of the period, in milliseconds.
    pub open spec fn period(&self) -> nat {
        match *self {
            ScheduledTask::Daily(_) => DAY_MILLIS as nat,
            ScheduledTask::Custom(_, _, d) => d as nat,
        }
    }

    /// Whether `label` is the label of the period that holds `t`: its date at its offset for a
    /// daily task, what the label function returns for a custom one.
    pub open spec fn labelled(&self, t: Timestamp, label: Seq<char>) -> bool {
        match *self {
            ScheduledTask::Daily(_) => label == date_label(
                calendar_date(t.seconds, t.nanoseconds, t.offset),
            ),
            ScheduledTask::Custom(_, f, _) => exists|r: String|
                #[trigger] call_ensures(f, (t,), r) && r@ == label,
        }
    }

    /// The scheduled task.
    pub open spec fn inner(&self) -> T {
        match *self {
            ScheduledTask::Daily(t) => t,
            ScheduledTask::Custom(t, _, _) => t,
        }
    }

    /// The length of the period, in milliseconds.
    pub fn duration(&self) -> (r: u64)
        ensures
            r == self.period(),
    {
        match self {
            ScheduledTask::Daily(_) => DAY_MILLIS,
            ScheduledTask::Custom(_, _, d) => *d,
        }
    }

    /// The scheduled task.
    pub fn task(&self) -> (r: &T)
        ensures
            *r == self.inner(),
    {
        match self {
            ScheduledTask::Daily(t) => t,
            ScheduledTask::Custom(t, _, _) => t,
        }
    }

    /// The label of the period that holds `timestamp`.
    pub fn label(&self, timestamp: &Timestamp) -> (r: String)
        requires
            self.wf(),
            timestamp.wf(),
        ensures
            self.labelled(*timestamp, r@),
            self matches ScheduledTask::Custom(_, f, _) ==> call_ensures(f, (*timestamp,), r),
    {
        match self {
            ScheduledTask::Daily(_) => {
                let (year, month, day) = timestamp.date();
                date_label_text(year, month, day)
            },
            ScheduledTask::Custom(_, f, _) => {
                assert(call_requires(*f, (*timestamp,)));
                f(*timestamp)
            },
        }
    }
}

/// The label of a day, `YYYY-MM-DD`, as `{:04}-{:02}-{:02}` writes it.
pub fn date_label_text(year: i32, month: u32, day: u32) -> (r: String)
    ensures
        r@ == date_label((year, month, day)),
{
    proof {
        reveal_strlit("-");
    }
    let mut r = String::new();
    if year < 0 {
        r.append("-");
        push_padded(&mut r, (-(year as i64)) as u128, 3);
    } else {
        push_padded(&mut r, year as u128, 4);
    }
    r.append("-");
    push_padded(&mut r, month as u128, 2);
    r.append("-");
    push_padded(&mut r, day as u128, 2);
    assert(r@ =~= date_label((year, month, day)));
    r
}

/// The index, in decimal, of the period of `period` milliseconds that holds the instant `millis`
/// milliseconds after the Unix epoch.
pub fn period_index_text(millis: i128, period: u64) -> (r: String)
    requires
        period > 0,
        millis > i128::MIN,
    ensures
        r@ == signed_decimal(period_index(millis as int, period as int)),
{
    let p = period as i128;
    let index = if millis >= 0 {
        millis / p
    } else {
        -((-millis - 1) / p) - 1
    };
    assert(index == period_index(millis as int, p as int)) by (nonlinear_arith)
        requires
            p > 0,
            millis < 0 ==> index as int == -((-(millis as int) - 1) / (p as int)) - 1,
            millis >= 0 ==> index as int == (millis as int) / (p as int),
    ;
    let mut r = String::new();
    push_signed_decimal(&mut r, index);
    assert(r@ =~= signed_decimal(period_index(millis as int, period as int)));
    r
}

/// The shortest period among some tasks, in milliseconds.
pub open spec fn shortest<T: Task, F: Fn(Timestamp) -> String>(tasks: Seq<ScheduledTask<T, F>>) -> nat
    decreases tasks.len(),
{
    if tasks.len() == 0 {
        0
    } else if tasks.len() == 1 {
        tasks[0].period()
    } else {
        let rest = shortest(tasks.drop_last());
        if tasks.last().period() < rest {
            tasks.last().period()
        } else {
            rest
        }
    }
}

/// A collection of tasks that the runner checks on every wake.
pub struct Scheduled<T, F> {
    tasks: Vec<ScheduledTask<T, F>>,
}

impl<T: Task, F: Fn(Timestamp) -> String> Scheduled<T, F> {
    /// The registered tasks, in order.
    pub closed spec fn view_tasks(&self) -> Seq<ScheduledTask<T, F>> {
        self.tasks@
    }

    /// Whether every registered cadence is usable.
    pub open spec fn wf(&self) -> bool {
        forall|i: int| 0 <= i < self.view_tasks().len() ==> (#[trigger] self.view_tasks()[i]).wf()
    }

    /// Creates a runner without tasks.
    pub fn new() -> (r: Scheduled<T, F>)
        ensures
            r.view_tasks() == Seq::<ScheduledTask<T, F>>::empty(),
            r.wf(),
    {
        Scheduled { tasks: Vec::new() }
    }

    /// Adds a task to this runner.
    pub fn with(self, scheduled_task: ScheduledTask<T, F>) -> (r: Scheduled<T, F>)
        ensures
            r.view_tasks() == self.view_tasks().push(scheduled_task),
            r.wf() == (self.wf() && scheduled_task.wf()),
    {
        let mut tasks = self.tasks;
        tasks.push(scheduled_task);
        let r = Scheduled { tasks };
        proof {
            if r.wf() {
                assert(r.view_tasks()[r.view_tasks().len() - 1] == scheduled_task);
                assert forall|i: int| 0 <= i < self.view_tasks().len() implies (
                #[trigger] self.view_tasks()[i]).wf() by {
                    assert(r.view_tasks()[i] == self.view_tasks()[i]);
                }
            }
        }
        r
    }

    /// The registered tasks, in order.
    pub fn tasks(&self) -> (r: &Vec<ScheduledTask<T, F>>)
        ensures
            r@ == self.view_tasks(),
    {
        &self.tasks
    }

    /// The time between wakes, in milliseconds: a twentieth of the shortest period, or none
    /// where no task is registered.
    pub fn interval(&self) -> (r: Option<u64>)
        ensures
            self.view_tasks().len() == 0 ==> r is None,
            self.view_tasks().len() > 0 ==> r == Some((shortest(self.view_tasks()) / 20) as u64),
    {
        if self.tasks.len() == 0 {
            return None;
        }
        let mut least = self.tasks[0].duration();
        let mut i: usize = 1;
        assert(self.tasks@.subrange(0, 1).drop_last().len() == 0);
        while i < self.tasks.len()
            invariant
                1 <= i <= self.tasks@.len(),
                least as nat == shortest(self.tasks@.subrange(0, i as int)),
            decreases self.tasks@.len() - i,
        {
            let d = self.tasks[i].duration();
            assert(self.tasks@.subrange(0, i + 1).drop_last() =~= self.tasks@.subrange(0, i as int));
            if d < least {
                least = d;
            }
            i = i + 1;
        }
        assert(self.tasks@.subrange(0, self.tasks@.len() as int) =~= self.tasks@);
        Some(least / 20)
    }

    /// Whether the label functions of all custom cadences take every instant.
    pub open spec fn labels_total(&self) -> bool {
        forall|i: int|
            0 <= i < self.view_tasks().len() ==> (#[trigger] self.view_tasks()[i]).label_total()
    }

    /// Whether no registered period is empty.
    pub open spec fn periods_ok(&self) -> bool {
        forall|i: int|
            0 <= i < self.view_tasks().len() ==> (#[trigger] self.view_tasks()[i]).period_ok()
    }

    /// Whether no two registered tasks share a name, and so a marker.
    pub open spec fn names_distinct(&self) -> bool {
        forall|i: int, j: int|
            0 <= i < j < self.view_tasks().len() ==> (#[trigger] self.view_tasks()[i]).inner().spec_name()
                != (#[trigger] self.view_tasks()[j]).inner().spec_name()
    }

    /// Starts the check-and-run of the task at `index` for the wake at `timestamp`, where the
    /// index is registered, no period is empty, no two tasks share a name and the calendar can
    /// hold the instant; else `None`.
    pub fn check_and_run_checked(&self, index: usize, timestamp: &Timestamp) -> (r: Option<
        TaskRun,
    >)
        requires
            self.labels_total(),
        ensures
            r is Some <==> (index < self.view_tasks().len() && self.periods_ok()
                && self.names_distinct() && timestamp.wf()),
            r matches Some(run) ==> run.task_name() == self.view_tasks()[index as int].inner().spec_name()
                && self.view_tasks()[index as int].labelled(*timestamp, run.period_label())
                && run.time() == *timestamp && run.step() == Step::Check,
    {
        let n = self.tasks.len();
        if index >= n {
            return None;
        }
        let mut i: usize = 0;
        while i < n
            invariant
                n == self.view_tasks().len(),
                i <= n,
                forall|k: int| 0 <= k < i ==> (#[trigger] self.view_tasks()[k]).period_ok(),
                forall|k: int, l: int|
                    0 <= k < l < i ==> (#[trigger] self.view_tasks()[k]).inner().spec_name()
                        != (#[trigger] self.view_tasks()[l]).inner().spec_name(),
            decreases n - i,
        {
            if self.tasks[i].duration() == 0 {
                return None;
            }
            let name = self.tasks[i].task().name();
            let mut k: usize = 0;
            while k < i
                invariant
                    n == self.view_tasks().len(),
                    i < n,
                    k <= i,
                    name@ == self.view_tasks()[i as int].inner().spec_name(),
                    forall|m: int|
                        0 <= m < k ==> (#[trigger] self.view_tasks()[m]).inner().spec_name()
                            != self.view_tasks()[i as int].inner().spec_name(),
                decreases i - k,
            {
                if same_text(self.tasks[k].task().name(), name) {
                    assert(!self.names_distinct()) by {
                        assert(self.view_tasks()[k as int].inner().spec_name()
                            == self.view_tasks()[i as int].inner().spec_name());
                    }
                    return None;
                }
                k = k + 1;
            }
            i = i + 1;
        }
        match Timestamp::from_parts(timestamp.seconds, timestamp.nanoseconds, timestamp.offset) {
            None => None,
            Some(_) => {
                assert(self.wf());
                Some(self.check_and_run(index, timestamp))
            },
        }
    }

    /// Starts the check-and-run of the task at `index` for the wake at `timestamp`.
    pub fn check_and_run(&self, index: usize, timestamp: &Timestamp) -> (r: TaskRun)
        requires
            self.wf(),
            index < self.view_tasks().len(),
            timestamp.wf(),
        ensures
            r.task_name() == self.view_tasks()[index as int].inner().spec_name(),
            self.view_tasks()[index as int].labelled(*timestamp, r.period_label()),
            r.time() == *timestamp,
            r.step() == Step::Check,
    {
        let t = &self.tasks[index];
        TaskRun {
            name: t.task().name().to_owned(),
            label: t.label(timestamp),
            recorded_at: *timestamp,
            step: Step::Check,
        }
    }
}

/// Where one task's check-and-run stands, and so what the caller does next.
#[derive(Clone, Debug, PartialEq)]
pub enum Step {
    /// In a new transaction, look up the marker of the task's name and label, and report
    /// whether one was found.
    Check,
    /// No marker was found: run the task in the transaction and report how it went.
    Run,
    /// The task succeeded: write the marker with the time of the wake, commit, and report how
    /// it went.
    Record,
    /// The task already ran in this period: commit the transaction, which changed nothing.
    Skipped,
    /// The task ran and its marker was committed.
    Executed,
    /// A step failed: roll the transaction back, so that neither the task's work nor a marker
    /// remains, and report the error.
    Failed(TaskError),
}

/// The step that follows `step` when the caller reports `report` on it: whether a marker was
/// found, for a check; success or failure, for the others.
pub open spec fn next_step(step: Step, report: Result<bool, TaskError>) -> Step {
    match step {
        Step::Check => match report {
            Ok(true) => Step::Skipped,
            Ok(false) => Step::Run,
            Err(e) => Step::Failed(e),
        },
        Step::Run => match report {
            Ok(_) => Step::Record,
            Err(e) => Step::Failed(e),
        },
        Step::Record => match report {
            Ok(_) => Step::Executed,
            Err(e) => Step::Failed(e),
        },
        _ => step,
    }
}

/// Whether a step ends the check-and-run.
pub open spec fn is_final(step: Step) -> bool {
    step is Skipped || step is Executed || step is Failed
}

/// One task's check-and-run for one wake.
#[derive(Clone, Debug)]
pub struct TaskRun {
    name: String,
    label: String,
    recorded_at: Timestamp,
    step: Step,
}

impl TaskRun {
    /// The name of the task.
    pub closed spec fn task_name(&self) -> Seq<char> {
        self.name@
    }

    /// The label of the period that holds the wake.
    pub closed spec fn period_label(&self) -> Seq<char> {
        self.label@
    }

    /// The time of the wake, written with the marker.
    pub closed spec fn time(&self) -> Timestamp {
        self.recorded_at
    }

    /// The name of the task.
    pub fn name(&self) -> (r: &str)
        ensures
            r@ == self.task_name(),
    {
        self.name.as_str()
    }

    /// The label of the period that holds the wake.
    pub fn label(&self) -> (r: &str)
        ensures
            r@ == self.period_label(),
    {
        self.label.as_str()
    }

    /// The time of the wake, written with the marker.
    pub fn recorded_at(&self) -> (r: Timestamp)
        ensures
            r == self.time(),
    {
        self.recorded_at
    }

    /// Where this check-and-run stands.
    pub closed spec fn step(&self) -> Step {
        self.step
    }

    /// Where this check-and-run stands.
    pub fn current(&self) -> (r: &Step)
        ensures
            *r == self.step(),
    {
        &self.step
    }

    /// Moves on with what the caller reports on the current step.
    pub fn advance(&mut self, report: Result<bool, TaskError>)
        ensures
            final(self).step() == next_step(old(self).step(), report),
            final(self).task_name() == old(self).task_name(),
            final(self).period_label() == old(self).period_label(),
            final(self).time() == old(self).time(),
    {
        let next = match &self.step {
            Step::Check => match report {
                Ok(true) => Step::Skipped,
                Ok(false) => Step::Run,
                Err(e) => Step::Failed(e),
            },
            Step::Run => match report {
                Ok(_) => Step::Record,
                Err(e) => Step::Failed(e),
            },
            Step::Record => match report {
                Ok(_) => Step::Executed,
                Err(e) => Step::Failed(e),
            },
            _ => {
                return ;
            },
        };
        self.step = next;
    }

    /// The outcome of a finished check-and-run: an error where it failed.
    pub fn outcome(self) -> (r: Result<(), TaskError>)
        requires
            is_final(self.step()),
        ensures
            r is Ok <==> !(self.step() is Failed),
            r matches Err(e) ==> self.step() == Step::Failed(e),
    {
        match self.step {
            Step::Failed(e) => Err(e),
            _ => Ok(()),
        }
    }
}

/// A marker of the execution-record table: a task name and a period label.
pub type Marker = (Seq<char>, Seq<char>);

/// One check-and-run against a table holding `markers`, where the look-up and the write of the
/// marker succeed and the task reports `run`: the markers afterwards, whether the task was run,
/// and the last step.
pub open spec fn check_and_run_model(
    markers: Set<Marker>,
    key: Marker,
    run: Result<bool, TaskError>,
) -> (Set<Marker>, bool, Step) {
    let checked = next_step(Step::Check, Ok(markers.contains(key)));
    if checked == Step::Run {
        let ran = next_step(checked, run);
        if ran == Step::Record {
            (markers.insert(key), true, next_step(ran, Ok(true)))
        } else {
            (markers, true, ran)
        }
    } else {
        (markers, false, checked)
    }
}

/// A wake over tasks with keys `keys`, in order, each reporting `runs[i]`: the markers afterwards
/// and the last step of each task.
pub open spec fn wake_model(
    markers: Set<Marker>,
    keys: Seq<Marker>,
    runs: Seq<Result<bool, TaskError>>,
) -> (Set<Marker>, Seq<Step>)
    decreases keys.len(),
{
    if keys.len() == 0 || runs.len() < keys.len() {
        (markers, Seq::empty())
    } else {
        let before = wake_model(markers, keys.drop_last(), runs);
        let one = check_and_run_model(before.0, keys.last(), runs[keys.len() - 1]);
        (one.0, before.1.push(one.2))
    }
}

/// A task is run at most once per period: a check-and-run with the key that an earlier
/// successful one wrote runs nothing; a key of another period, with no marker yet, is run again.
pub proof fn lemma_at_most_once_per_period(
    markers: Set<Marker>,
    key: Marker,
    later: Marker,
    first: Result<bool, TaskError>,
    second: Result<bool, TaskError>,
)
    requires
        !markers.contains(key),
        first is Ok,
    ensures
        check_and_run_model(markers, key, first).1,
        !check_and_run_model(check_and_run_model(markers, key, first).0, key, second).1,
        later != key && !markers.contains(later) ==> check_and_run_model(
            check_and_run_model(markers, key, first).0,
            later,
            second,
        ).1,
{
}

/// A failing task does not keep the others of the same wake from running: a task whose own run
/// succeeds has its marker written, whatever the other tasks report.
pub proof fn lemma_failure_isolation(
    markers: Set<Marker>,
    keys: Seq<Marker>,
    runs: Seq<Result<bool, TaskError>>,
    j: int,
)
    requires
        runs.len() >= keys.len(),
        0 <= j < keys.len(),
        runs[j] is Ok,
    ensures
        wake_model(markers, keys, runs).0.contains(keys[j]),
        wake_model(markers, keys, runs).1.len() == keys.len(),
        wake_model(markers, keys, runs).1[j] is Executed || wake_model(markers, keys, runs).1[j]
            is Skipped,
    decreases keys.len(),
{
    lemma_wake_len(markers, keys, runs);
    if j < keys.len() - 1 {
        lemma_failure_isolation(markers, keys.drop_last(), runs, j);
        lemma_markers_grow(
            wake_model(markers, keys.drop_last(), runs).0,
            keys.last(),
            runs[keys.len() - 1],
        );
    } else {
        lemma_wake_len(markers, keys.drop_last(), runs);
    }
}

/// Two wakes at the same instant start check-and-runs of a daily task under the same marker,
/// so once the first has run the task and written its marker, the second skips it.
pub proof fn lemma_same_instant_runs_once<T: Task, F: Fn(Timestamp) -> String>(
    s: Scheduled<T, F>,
    index: int,
    t: Timestamp,
    first: TaskRun,
    second: TaskRun,
    markers: Set<Marker>,
    run: Result<bool, TaskError>,
    later: Result<bool, TaskError>,
)
    requires
        0 <= index < s.view_tasks().len(),
        s.view_tasks()[index] is Daily,
        first.task_name() == s.view_tasks()[index].inner().spec_name(),
        second.task_name() == s.view_tasks()[index].inner().spec_name(),
        s.view_tasks()[index].labelled(t, first.period_label()),
        s.view_tasks()[index].labelled(t, second.period_label()),
        !markers.contains((first.task_name(), first.period_label())),
        run is Ok,
    ensures
        (first.task_name(), first.period_label()) == (second.task_name(), second.period_label()),
        check_and_run_model(markers, (first.task_name(), first.period_label()), run).1,
        !check_and_run_model(
            check_and_run_model(markers, (first.task_name(), first.period_label()), run).0,
            (second.task_name(), second.period_label()),
            later,
        ).1,
{
}

/// A check-and-run only ever adds markers.
proof fn lemma_markers_grow(markers: Set<Marker>, key: Marker, run: Result<bool, TaskError>)
    ensures
        markers.subset_of(check_and_run_model(markers, key, run).0),
{
}

/// A wake over tasks that each report something records one last step per task.
proof fn lemma_wake_len(markers: Set<Marker>, keys: Seq<Marker>, runs: Seq<Result<bool, TaskError>>)
    requires
        runs.len() >= keys.len(),
    ensures
        wake_model(markers, keys, runs).1.len() == keys.len(),
    decreases keys.len(),
{
    if keys.len() > 0 {
        lemma_wake_len(markers, keys.drop_last(), runs);
    }
}

/// The task that pays allowances on their scheduled day of the week.
#[derive(Clone, Copy, Debug)]
pub struct AllowancePayer;

impl Task for AllowancePayer {
    open spec fn spec_name(&self) -> Seq<char> {
        "allowance-payer"@
    }

    fn name(&self) -> (r: &str) {
        "allowance-payer"
    }
}

impl AllowancePayer {
    /// The schedule whose allowances are paid at `timestamp`: its day of the week.
    pub fn schedule(&self, timestamp: &Timestamp) -> (r: Schedule)
        requires
            timestamp.wf(),
        ensures
            weekday_number(r.0) == day_of_week(timestamp.seconds, timestamp.offset),
    {
        Schedule(Weekday::from_number(timestamp.weekday()))
    }
}

} // verus!
