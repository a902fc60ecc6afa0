//! Rollouts: the remote execution of a plan, as stages of tasks, and the
//! rules that decide when one is finished.

use vstd::prelude::*;
use crate::text::{str_eq, decimal_spec, format_u64, join, join_spec, views};

verus! {

/// The state of one task of a rollout.
#[derive(Debug, Clone, Copy, PartialEq, Eq, Structural)]
pub enum TaskStatus {
    NotStarted,
    Pending,
    Running,
    Done,
    Failed,
    Canceled,
    Skipped,
}

/// A task that will not change state any more.
pub open spec fn is_terminal(s: TaskStatus) -> bool {
    s == TaskStatus::Done || s == TaskStatus::Failed || s == TaskStatus::Canceled
        || s == TaskStatus::Skipped
}

/// A terminal state that counts as success.
pub open spec fn is_successful(s: TaskStatus) -> bool {
    s == TaskStatus::Done || s == TaskStatus::Skipped
}

impl TaskStatus {
    pub fn is_terminal(&self) -> (r: bool)
        ensures
            r == is_terminal(*self),
    {
        match self {
            TaskStatus::Done | TaskStatus::Failed | TaskStatus::Canceled | TaskStatus::Skipped => true,
            _ => false,
        }
    }

    pub fn is_successful(&self) -> (r: bool)
        ensures
            r == is_successful(*self),
    {
        match self {
            TaskStatus::Done | TaskStatus::Skipped => true,
            _ => false,
        }
    }
}

pub open spec fn task_status_spec(s: Seq<char>) -> Option<TaskStatus> {
    if s == "NOT_STARTED"@ {
        Some(TaskStatus::NotStarted)
    } else if s == "PENDING"@ {
        Some(TaskStatus::Pending)
    } else if s == "RUNNING"@ {
        Some(TaskStatus::Running)
    } else if s == "DONE"@ {
        Some(TaskStatus::Done)
    } else if s == "FAILED"@ {
        Some(TaskStatus::Failed)
    } else if s == "CANCELED"@ {
        Some(TaskStatus::Canceled)
    } else if s == "SKIPPED"@ {
        Some(TaskStatus::Skipped)
    } else {
        None
    }
}

impl TaskStatus {
    /// Reads a status as the backend writes it; anything unknown is refused.
    pub fn parse(s: &str) -> (r: Option<TaskStatus>)
        ensures
            r == task_status_spec(s@),
    {
        if str_eq(s, "NOT_STARTED") {
            Some(TaskStatus::NotStarted)
        } else if str_eq(s, "PENDING") {
            Some(TaskStatus::Pending)
        } else if str_eq(s, "RUNNING") {
            Some(TaskStatus::Running)
        } else if str_eq(s, "DONE") {
            Some(TaskStatus::Done)
        } else if str_eq(s, "FAILED") {
            Some(TaskStatus::Failed)
        } else if str_eq(s, "CANCELED") {
            Some(TaskStatus::Canceled)
        } else if str_eq(s, "SKIPPED") {
            Some(TaskStatus::Skipped)
        } else {
            None
        }
    }
}

/// One task: what it is called, its state, and the database it runs on.
#[derive(Debug)]
pub struct RolloutTask {
    pub name: String,
    pub status: TaskStatus,
    pub target: String,
}

impl RolloutTask {
    /// A copy of the task.
    pub fn copy(&self) -> (r: RolloutTask)
        ensures
            r == *self,
    {
        RolloutTask { name: self.name.clone(), status: self.status, target: self.target.clone() }
    }
}

#[derive(Debug)]
pub struct Stage {
    pub tasks: Vec<RolloutTask>,
}

/// A snapshot of a rollout as the backend reports it.
#[derive(Debug)]
pub struct Rollout {
    pub name: String,
    pub stages: Vec<Stage>,
}

/// The tasks of all stages, stage after stage.
pub open spec fn tasks_of(stages: Seq<Stage>) -> Seq<RolloutTask>
    decreases stages.len(),
{
    if stages.len() == 0 {
        Seq::empty()
    } else {
        tasks_of(stages.drop_last()) + stages.last().tasks@
    }
}

/// How many of the tasks are in state `s`.
pub open spec fn count_status(tasks: Seq<RolloutTask>, s: TaskStatus) -> nat
    decreases tasks.len(),
{
    if tasks.len() == 0 {
        0
    } else {
        count_status(tasks.drop_last(), s) + if tasks.last().status == s {
            1nat
        } else {
            0nat
        }
    }
}

/// The tasks in state `Failed`, in order.
pub open spec fn failed_of(tasks: Seq<RolloutTask>) -> Seq<RolloutTask>
    decreases tasks.len(),
{
    if tasks.len() == 0 {
        Seq::empty()
    } else if tasks.last().status == TaskStatus::Failed {
        failed_of(tasks.drop_last()).push(tasks.last())
    } else {
        failed_of(tasks.drop_last())
    }
}

pub open spec fn all_terminal(tasks: Seq<RolloutTask>) -> bool {
    forall|k: int| 0 <= k < tasks.len() ==> is_terminal(#[trigger] tasks[k].status)
}

pub open spec fn all_successful(tasks: Seq<RolloutTask>) -> bool {
    forall|k: int| 0 <= k < tasks.len() ==> is_successful(#[trigger] tasks[k].status)
}

pub open spec fn all_not_started(tasks: Seq<RolloutTask>) -> bool {
    tasks.len() > 0 && forall|k: int| 0 <= k < tasks.len() ==> (#[trigger] tasks[k].status)
        == TaskStatus::NotStarted
}

proof fn lemma_tasks_step(stages: Seq<Stage>, i: int)
    requires
        0 <= i < stages.len(),
    ensures
        tasks_of(stages.take(i + 1)) == tasks_of(stages.take(i)) + stages[i].tasks@,
{
    assert(stages.take(i + 1).drop_last() =~= stages.take(i));
}

proof fn lemma_tasks_all(stages: Seq<Stage>)
    ensures
        tasks_of(stages.take(stages.len() as int)) == tasks_of(stages),
{
    assert(stages.take(stages.len() as int) =~= stages);
}

impl Rollout {
    /// All tasks of the rollout.
    pub open spec fn tasks(&self) -> Seq<RolloutTask> {
        tasks_of(self.stages@)
    }

    /// Copies of all tasks, stage after stage.
    pub fn all_tasks(&self) -> (r: Vec<RolloutTask>)
        ensures
            r@ == self.tasks(),
    {
        let mut out: Vec<RolloutTask> = Vec::new();
        let mut i: usize = 0;
        while i < self.stages.len()
            invariant
                i <= self.stages@.len(),
                out@ == tasks_of(self.stages@.take(i as int)),
            decreases self.stages@.len() - i,
        {
            let stage = &self.stages[i];
            let ghost before = out@;
            let mut j: usize = 0;
            while j < stage.tasks.len()
                invariant
                    stage == self.stages@[i as int],
                    j <= stage.tasks@.len(),
                    out@ == before + stage.tasks@.take(j as int),
                decreases stage.tasks@.len() - j,
            {
                out.push(stage.tasks[j].copy());
                assert(stage.tasks@.take(j as int + 1) =~= stage.tasks@.take(j as int).push(
                    stage.tasks@[j as int],
                ));
                j = j + 1;
            }
            proof {
                lemma_tasks_step(self.stages@, i as int);
                assert(stage.tasks@.take(j as int) =~= stage.tasks@);
            }
            i = i + 1;
        }
        proof {
            lemma_tasks_all(self.stages@);
        }
        out
    }

    /// Whether every task has reached a terminal state.
    pub fn is_complete(&self) -> (r: bool)
        ensures
            r == all_terminal(self.tasks()),
    {
        let tasks = self.all_tasks();
        let mut i: usize = 0;
        while i < tasks.len()
            invariant
                tasks@ == self.tasks(),
                i <= tasks@.len(),
                forall|k: int| 0 <= k < i ==> is_terminal(#[trigger] tasks@[k].status),
            decreases tasks@.len() - i,
        {
            if !tasks[i].status.is_terminal() {
                return false;
            }
            i = i + 1;
        }
        true
    }

    /// Whether every task ended in `Done` or `Skipped`.
    pub fn is_success(&self) -> (r: bool)
        ensures
            r == all_successful(self.tasks()),
    {
        let tasks = self.all_tasks();
        let mut i: usize = 0;
        while i < tasks.len()
            invariant
                tasks@ == self.tasks(),
                i <= tasks@.len(),
                forall|k: int| 0 <= k < i ==> is_successful(#[trigger] tasks@[k].status),
            decreases tasks@.len() - i,
        {
            if !tasks[i].status.is_successful() {
                return false;
            }
            i = i + 1;
        }
        true
    }
}

/// Whether the rollout has tasks and none of them has started.
pub fn is_all_not_started(rollout: &Rollout) -> (r: bool)
    ensures
        r == all_not_started(rollout.tasks()),
{
    let tasks = rollout.all_tasks();
    if tasks.len() == 0 {
        return false;
    }
    let mut i: usize = 0;
    while i < tasks.len()
        invariant
            tasks@ == rollout.tasks(),
            i <= tasks@.len(),
            forall|k: int| 0 <= k < i ==> (#[trigger] tasks@[k].status) == TaskStatus::NotStarted,
        decreases tasks@.len() - i,
    {
        if tasks[i].status != TaskStatus::NotStarted {
            return false;
        }
        i = i + 1;
    }
    true
}

/// The failed tasks of the rollout, in order.
pub fn failed_tasks(rollout: &Rollout) -> (r: Vec<RolloutTask>)
    ensures
        r@ == failed_of(rollout.tasks()),
{
    let tasks = rollout.all_tasks();
    let mut out: Vec<RolloutTask> = Vec::new();
    let mut i: usize = 0;
    while i < tasks.len()
        invariant
            tasks@ == rollout.tasks(),
            i <= tasks@.len(),
            out@ == failed_of(tasks@.take(i as int)),
        decreases tasks@.len() - i,
    {
        assert(tasks@.take(i as int + 1).drop_last() =~= tasks@.take(i as int));
        if tasks[i].status == TaskStatus::Failed {
            out.push(tasks[i].copy());
        }
        i = i + 1;
    }
    assert(tasks@.take(i as int) =~= tasks@);
    out
}


/// How many tasks are in each state; `other` counts `Canceled` and `Skipped`.
#[derive(Debug, Clone, Copy, PartialEq, Eq)]
pub struct StatusCounts {
    pub not_started: u64,
    pub pending: u64,
    pub running: u64,
    pub done: u64,
    pub failed: u64,
    pub other: u64,
}

impl StatusCounts {
    pub open spec fn total(&self) -> nat {
        (self.not_started + self.pending + self.running + self.done + self.failed
            + self.other) as nat
    }

    pub open spec fn finished(&self) -> nat {
        (self.done + self.failed + self.other) as nat
    }
}

/// The counts of `tasks`.
pub open spec fn counts_of(tasks: Seq<RolloutTask>) -> StatusCounts {
    StatusCounts {
        not_started: count_status(tasks, TaskStatus::NotStarted) as u64,
        pending: count_status(tasks, TaskStatus::Pending) as u64,
        running: count_status(tasks, TaskStatus::Running) as u64,
        done: count_status(tasks, TaskStatus::Done) as u64,
        failed: count_status(tasks, TaskStatus::Failed) as u64,
        other: (count_status(tasks, TaskStatus::Canceled) + count_status(
            tasks,
            TaskStatus::Skipped,
        )) as u64,
    }
}

spec fn counts_match(c: StatusCounts, tasks: Seq<RolloutTask>) -> bool {
    &&& c.not_started == count_status(tasks, TaskStatus::NotStarted)
    &&& c.pending == count_status(tasks, TaskStatus::Pending)
    &&& c.running == count_status(tasks, TaskStatus::Running)
    &&& c.done == count_status(tasks, TaskStatus::Done)
    &&& c.failed == count_status(tasks, TaskStatus::Failed)
    &&& c.other == count_status(tasks, TaskStatus::Canceled) + count_status(
        tasks,
        TaskStatus::Skipped,
    )
}

/// Counts the tasks of the rollout in each state.
pub fn status_counts(rollout: &Rollout) -> (r: StatusCounts)
    ensures
        r == counts_of(rollout.tasks()),
        r.total() == rollout.tasks().len(),
        r.total() <= usize::MAX,
{
    let tasks = rollout.all_tasks();
    let mut c = StatusCounts { not_started: 0, pending: 0, running: 0, done: 0, failed: 0, other: 0 };
    let mut i: usize = 0;
    while i < tasks.len()
        invariant
            tasks@ == rollout.tasks(),
            i <= tasks@.len(),
            counts_match(c, tasks@.take(i as int)),
            c.total() == i,
        decreases tasks@.len() - i,
    {
        assert(tasks@.take(i as int + 1).drop_last() =~= tasks@.take(i as int));
        assert(i < usize::MAX);
        match tasks[i].status {
            TaskStatus::NotStarted => c.not_started = c.not_started + 1,
            TaskStatus::Pending => c.pending = c.pending + 1,
            TaskStatus::Running => c.running = c.running + 1,
            TaskStatus::Done => c.done = c.done + 1,
            TaskStatus::Failed => c.failed = c.failed + 1,
            _ => c.other = c.other + 1,
        }
        i = i + 1;
    }
    assert(tasks@.take(i as int) =~= tasks@);
    assert(tasks@.len() <= usize::MAX);
    c
}

pub open spec fn part_text(n: u64, label: Seq<char>) -> Seq<Seq<char>> {
    if n > 0 {
        seq![decimal_spec(n as nat) + label]
    } else {
        Seq::empty()
    }
}

pub open spec fn summary_parts(c: StatusCounts) -> Seq<Seq<char>> {
    part_text(c.done, " done"@) + part_text(c.running, " running"@) + part_text(
        c.pending,
        " pending"@,
    ) + part_text(c.not_started, " not started"@) + part_text(c.failed, " failed"@) + part_text(
        c.other,
        " other"@,
    )
}

/// The progress line: `No tasks`, or `[finished/total] ` and the non-zero counts.
pub open spec fn summary_text(c: StatusCounts) -> Seq<char> {
    if c.total() == 0 {
        "No tasks"@
    } else {
        "["@ + decimal_spec(c.finished()) + "/"@ + decimal_spec(c.total()) + "] "@ + join_spec(
            summary_parts(c),
            ", "@,
        )
    }
}

fn push_part(parts: &mut Vec<String>, n: u64, label: &str)
    ensures
        views(final(parts)@) == views(old(parts)@) + part_text(n, label@),
{
    if n > 0 {
        let mut s = format_u64(n);
        s.append(label);
        let ghost before = views(parts@);
        parts.push(s);
        assert(views(parts@) =~= before + part_text(n, label@));
    } else {
        assert(views(parts@) =~= views(parts@) + part_text(n, label@));
    }
}

/// A one-line summary of where the rollout stands.
pub fn get_status_summary(rollout: &Rollout) -> (r: String)
    ensures
        r@ == summary_text(counts_of(rollout.tasks())),
{
    let c = status_counts(rollout);
    if c.not_started + c.pending + c.running + c.done + c.failed + c.other == 0 {
        return "No tasks".to_string();
    }
    let mut parts: Vec<String> = Vec::new();
    assert(views(parts@) =~= Seq::<Seq<char>>::empty());
    push_part(&mut parts, c.done, " done");
    push_part(&mut parts, c.running, " running");
    push_part(&mut parts, c.pending, " pending");
    push_part(&mut parts, c.not_started, " not started");
    push_part(&mut parts, c.failed, " failed");
    push_part(&mut parts, c.other, " other");
    let mut s = "[".to_string();
    s.append(format_u64(c.done + c.failed + c.other).as_str());
    s.append("/");
    s.append(format_u64(c.not_started + c.pending + c.running + c.done + c.failed + c.other).as_str());
    s.append("] ");
    s.append(join(&parts, ", ").as_str());
    assert(views(parts@) =~= summary_parts(c));
    s
}

pub open spec fn task_detail(t: RolloutTask) -> Seq<char> {
    "Task '"@ + t.name@ + "' (target: "@ + t.target@ + ")"@
}

/// The error text for a rollout that ended without success.
pub open spec fn failure_text(tasks: Seq<RolloutTask>) -> Seq<char> {
    let f = failed_of(tasks);
    if f.len() == 0 {
        "Rollout failed with unknown error"@
    } else {
        "Rollout failed. "@ + decimal_spec(f.len()) + " task(s) failed: "@ + join_spec(
            f.map_values(|t: RolloutTask| task_detail(t)),
            "; "@,
        )
    }
}

/// Describes the failed tasks of a rollout: their names and targets.
pub fn build_failure_message(rollout: &Rollout) -> (r: String)
    ensures
        r@ == failure_text(rollout.tasks()),
{
    let failed = failed_tasks(rollout);
    if failed.len() == 0 {
        return "Rollout failed with unknown error".to_string();
    }
    let mut details: Vec<String> = Vec::new();
    let mut i: usize = 0;
    while i < failed.len()
        invariant
            i <= failed@.len(),
            views(details@) == failed@.take(i as int).map_values(|t: RolloutTask| task_detail(t)),
        decreases failed@.len() - i,
    {
        let mut d = "Task '".to_string();
        d.append(failed[i].name.as_str());
        d.append("' (target: ");
        d.append(failed[i].target.as_str());
        d.append(")");
        let ghost before = views(details@);
        details.push(d);
        assert(views(details@) =~= before.push(task_detail(failed@[i as int])));
        assert(failed@.take(i as int + 1).map_values(|t: RolloutTask| task_detail(t))
            =~= failed@.take(i as int).map_values(|t: RolloutTask| task_detail(t)).push(
            task_detail(failed@[i as int]),
        ));
        i = i + 1;
    }
    assert(failed@.take(i as int) =~= failed@);
    let mut s = "Rollout failed. ".to_string();
    s.append(format_u64(failed.len() as u64).as_str());
    s.append(" task(s) failed: ");
    s.append(join(&details, "; ").as_str());
    s
}


/// Pause between two looks at a rollout that is still running.
pub const POLL_INTERVAL_MS: u64 = 2000;

/// How long every task may stay `NotStarted`, from the start of the wait.
pub const NOT_STARTED_TIMEOUT_MS: u64 = 60000;

/// Attempts to fetch a snapshot before the wait gives up.
pub const MAX_FETCH_ATTEMPTS: u32 = 5;

/// Pause between two attempts to fetch a snapshot.
pub const RETRY_DELAY_MS: u64 = 1000;

/// Why waiting for a rollout ended without success.
#[derive(Debug)]
pub enum RolloutError {
    /// Fetching the snapshot failed on every attempt; the last error.
    Backend(String),
    /// The rollout finished and not all tasks succeeded.
    Failed { message: String, tasks: Vec<RolloutTask> },
    /// Every task was still `NotStarted` after the timeout.
    StuckTimeout { elapsed_ms: u64, tasks: Vec<RolloutTask> },
}

/// What the caller of the poller observed.
#[derive(Debug)]
pub enum PollEvent {
    /// A snapshot, and the time since the wait began.
    Fetched { rollout: Rollout, elapsed_ms: u64 },
    /// Fetching the snapshot failed with this message.
    FetchFailed(String),
}

/// What the caller of the poller does next.
#[derive(Debug)]
pub enum PollAction {
    /// Sleep, then fetch a new snapshot; `summary` describes the last one.
    Wait { delay_ms: u64, summary: String },
    /// Sleep, then try the failed fetch again; `attempt` fetches have failed so far.
    Retry { delay_ms: u64, attempt: u32 },
    /// The wait is over.
    Finished(Result<Rollout, RolloutError>),
}

/// Waits for one rollout to finish: decides, after each fetch, whether to
/// wait, retry or stop. The caller fetches and sleeps.
#[derive(Debug)]
pub struct RolloutPoller {
    /// Consecutive failed fetches of the current snapshot.
    pub failed_attempts: u32,
}

/// What one snapshot of a rollout means for the wait.
pub enum Verdict {
    Succeeded,
    Failed,
    Stuck,
    Running,
}

/// Completion is checked first, then the timeout on tasks that never started.
pub open spec fn snapshot_verdict(tasks: Seq<RolloutTask>, elapsed_ms: u64) -> Verdict {
    if all_terminal(tasks) && all_successful(tasks) {
        Verdict::Succeeded
    } else if all_terminal(tasks) {
        Verdict::Failed
    } else if all_not_started(tasks) && elapsed_ms > NOT_STARTED_TIMEOUT_MS {
        Verdict::Stuck
    } else {
        Verdict::Running
    }
}

impl RolloutPoller {
    pub fn new() -> (r: RolloutPoller)
        ensures
            r.failed_attempts == 0,
    {
        RolloutPoller { failed_attempts: 0 }
    }

    pub open spec fn wf(&self) -> bool {
        self.failed_attempts < MAX_FETCH_ATTEMPTS
    }

    /// Takes in one observation and says what to do next.
    pub fn step(&mut self, event: PollEvent) -> (r: PollAction)
        requires
            old(self).wf(),
        ensures
            final(self).wf(),
            match event {
                PollEvent::FetchFailed(e) => {
                    if old(self).failed_attempts + 1 >= MAX_FETCH_ATTEMPTS {
                        &&& final(self).failed_attempts == 0
                        &&& r matches PollAction::Finished(Err(RolloutError::Backend(m)))
                        &&& r->Finished_0->Err_0->Backend_0 == e
                    } else {
                        &&& final(self).failed_attempts == old(self).failed_attempts + 1
                        &&& r == (PollAction::Retry {
                            delay_ms: RETRY_DELAY_MS,
                            attempt: (old(self).failed_attempts + 1) as u32,
                        })
                    }
                },
                PollEvent::Fetched { rollout, elapsed_ms } => {
                    let tasks = rollout.tasks();
                    &&& final(self).failed_attempts == 0
                    &&& match snapshot_verdict(tasks, elapsed_ms) {
                        Verdict::Succeeded => r == PollAction::Finished(Ok(rollout)),
                        Verdict::Failed => match r {
                            PollAction::Finished(Err(RolloutError::Failed { message, tasks: f })) => {
                                message@ == failure_text(tasks) && f@ == failed_of(tasks)
                            },
                            _ => false,
                        },
                        Verdict::Stuck => match r {
                            PollAction::Finished(Err(RolloutError::StuckTimeout { elapsed_ms: t, tasks: all })) => {
                                t == elapsed_ms && all@ == tasks
                            },
                            _ => false,
                        },
                        Verdict::Running => match r {
                            PollAction::Wait { delay_ms, summary } => {
                                delay_ms == POLL_INTERVAL_MS && summary@ == summary_text(counts_of(tasks))
                            },
                            _ => false,
                        },
                    }
                },
            },
    {
        match event {
            PollEvent::FetchFailed(e) => {
                if self.failed_attempts + 1 >= MAX_FETCH_ATTEMPTS {
                    self.failed_attempts = 0;
                    PollAction::Finished(Err(RolloutError::Backend(e)))
                } else {
                    self.failed_attempts = self.failed_attempts + 1;
                    PollAction::Retry { delay_ms: RETRY_DELAY_MS, attempt: self.failed_attempts }
                }
            },
            PollEvent::Fetched { rollout, elapsed_ms } => {
                self.failed_attempts = 0;
                if rollout.is_complete() {
                    if rollout.is_success() {
                        PollAction::Finished(Ok(rollout))
                    } else {
                        let message = build_failure_message(&rollout);
                        let tasks = failed_tasks(&rollout);
                        PollAction::Finished(Err(RolloutError::Failed { message, tasks }))
                    }
                } else if is_all_not_started(&rollout) && elapsed_ms > NOT_STARTED_TIMEOUT_MS {
                    let tasks = rollout.all_tasks();
                    PollAction::Finished(Err(RolloutError::StuckTimeout { elapsed_ms, tasks }))
                } else {
                    let summary = get_status_summary(&rollout);
                    PollAction::Wait { delay_ms: POLL_INTERVAL_MS, summary }
                }
            },
        }
    }
}

} // verus!
