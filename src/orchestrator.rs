//! The migration run: replays the selected changes one by one through the
//! backend's pipeline (validate, register a sheet, plan, issue, rollout, wait)
//! and stops at the first failure. The caller performs each backend call and
//! reports how it went.

use vstd::prelude::*;
use crate::error::AppError;
use crate::names::{project_text, IssueName, PlanName, SheetName};
use crate::selector::{selection, select_changelogs};
use crate::text::{eq_ignore_ascii_case, eq_ignore_ascii_case_spec, parse_u32, parse_u32_spec};
use crate::types::{
    base64_standard, ChangeDatabaseConfig, ChangeDatabaseConfigType, Changelog, EncodedStatement,
    SQLDialect, SheetRequest, SqlCheckRequest,
};

verus! {

/// `instances/<instance>/databases/<database>`.
pub open spec fn database_path(instance: Seq<char>, database: Seq<char>) -> Seq<char> {
    "instances/"@ + instance + "/databases/"@ + database
}

fn database_path_string(instance: &str, database: &str) -> (r: String)
    ensures
        r@ == database_path(instance@, database@),
{
    let mut s = "instances/".to_string();
    s.append(instance);
    s.append("/databases/");
    s.append(database);
    s
}

/// The text of a sheet name, as a revision records it.
pub open spec fn sheet_text(s: SheetName) -> Seq<char> {
    project_text("/sheets/"@, s.project_name@, s.number)
}

/// What the version argument means: `LATEST` in any case is the source's
/// latest closed issue; otherwise it must be a `u32`.
pub open spec fn target_version_spec(to: Seq<char>, latest: u32) -> Option<u32> {
    if eq_ignore_ascii_case_spec(to, "LATEST"@) {
        Some(latest)
    } else {
        parse_u32_spec(to)
    }
}

/// Resolves the version to migrate to.
pub fn resolve_target_version(to: &str, latest: u32) -> (r: Result<u32, AppError>)
    ensures
        match r {
            Ok(v) => target_version_spec(to@, latest) == Some(v),
            Err(AppError::InvalidArgs(m)) => target_version_spec(to@, latest) is None
                && m@ == "Invalid version '"@ + to@ + "'. Must be an integer or 'LATEST'."@,
            Err(_) => false,
        },
{
    if eq_ignore_ascii_case(to, "LATEST") {
        return Ok(latest);
    }
    match parse_u32(to) {
        Some(v) => Ok(v),
        None => {
            let mut m = "Invalid version '".to_string();
            m.append(to);
            m.append("'. Must be an integer or 'LATEST'.");
            Err(AppError::InvalidArgs(m))
        },
    }
}

/// What a run does, once the current and desired versions are known.
#[derive(Debug)]
pub enum RunPlan {
    /// The target is at or past the desired version: nothing is applied and
    /// no checkpoint is written.
    UpToDate,
    /// Replay these changes in this order; when there are none, the
    /// checkpoint still moves to the desired version.
    Apply(Vec<Changelog>),
}

/// A run from `current` to `desired` is needed only when `desired` is ahead.
pub open spec fn is_up_to_date(current: u32, desired: u32) -> bool {
    desired <= current
}

/// Decides what a run does.
pub fn plan_run(changelogs: Vec<Changelog>, current: u32, desired: u32, target_database: &str) -> (r: RunPlan)
    ensures
        is_up_to_date(current, desired) <==> r is UpToDate,
        match r {
            RunPlan::Apply(v) => v@ == selection(changelogs@, current, desired, target_database@),
            RunPlan::UpToDate => true,
        },
{
    if desired <= current {
        RunPlan::UpToDate
    } else {
        RunPlan::Apply(select_changelogs(changelogs, current, desired, target_database))
    }
}

/// Where the current change stands in the pipeline; each step carries what
/// the earlier ones produced.
#[derive(Debug)]
pub enum Step {
    Validate,
    RegisterSheet,
    CreatePlan(SheetName),
    CreateIssue(SheetName, PlanName),
    CreateRollout(SheetName, PlanName, IssueName),
    AwaitRollout(SheetName),
}

/// How the backend call of the current step went.
#[derive(Debug)]
pub enum StepResult {
    Validated,
    SheetRegistered(SheetName),
    PlanCreated(PlanName),
    IssueCreated(IssueName),
    RolloutCreated,
    RolloutSucceeded,
    /// The call failed, or the rollout did not succeed; the message says why.
    Failed(String),
}

/// The backend call that the caller makes next.
#[derive(Debug)]
pub enum MigrationAction {
    /// Check the statement against the target database.
    Validate(SqlCheckRequest),
    /// Store the statement as a sheet in `project`.
    RegisterSheet { project: String, request: SheetRequest },
    /// Create a plan in `project` that applies the sheet to the database.
    CreatePlan { project: String, config: ChangeDatabaseConfig },
    /// Create an issue in `project` that wraps the plan.
    CreateIssue { project: String, plan: PlanName },
    /// Create the rollout of the plan under the issue.
    CreateRollout { project: String, plan: PlanName, issue: IssueName },
    /// Wait for the rollout just created to finish.
    AwaitRollout,
    /// The run is over.
    Finished(MigrationOutcome),
}

/// The result of a run: the last change that went all the way through, how
/// many did, and whether all of them did.
#[derive(Debug)]
pub struct MigrationOutcome {
    pub last_issue: Option<IssueName>,
    pub last_sheet: Option<String>,
    pub applied_count: usize,
    pub all_succeeded: bool,
    /// Why the run stopped early, if it did.
    pub failure: Option<String>,
}

/// A run over the selected changes.
#[derive(Debug)]
pub struct Migration {
    pub changes: Vec<Changelog>,
    pub target_project: String,
    pub target_instance: String,
    pub target_database: String,
    pub dialect: SQLDialect,
    /// The index of the change being applied.
    pub next: usize,
    pub step: Step,
    pub applied_count: usize,
    pub last_issue: Option<IssueName>,
    pub last_sheet: Option<String>,
    pub failure: Option<String>,
}

fn copy_opt_string(s: &Option<String>) -> (r: Option<String>)
    ensures
        r == *s,
{
    match s {
        Some(v) => Some(v.clone()),
        None => None,
    }
}

fn copy_opt_issue(s: &Option<IssueName>) -> (r: Option<IssueName>)
    ensures
        r == *s,
{
    match s {
        Some(v) => Some(v.copy()),
        None => None,
    }
}

impl Migration {
    /// Every change before `next` went through, the last of them is recorded,
    /// and nothing is applied after a failure.
    pub open spec fn wf(&self) -> bool {
        &&& self.next <= self.changes@.len()
        &&& self.applied_count == self.next
        &&& self.next == 0 ==> self.last_issue is None && self.last_sheet is None
        &&& self.next > 0 ==> self.last_issue == Some(self.changes@[self.next - 1].issue)
            && self.last_sheet is Some
    }

    pub open spec fn is_finished(&self) -> bool {
        self.failure is Some || self.next >= self.changes@.len()
    }

    /// Starts a run over `changes`, which it applies in order.
    pub fn new(
        changes: Vec<Changelog>,
        target_project: String,
        target_instance: String,
        target_database: String,
        dialect: SQLDialect,
    ) -> (r: Migration)
        ensures
            r.wf(),
            r.changes == changes,
            r.target_project == target_project,
            r.target_instance == target_instance,
            r.target_database == target_database,
            r.dialect == dialect,
            r.next == 0,
            r.step is Validate,
            r.failure is None,
    {
        Migration {
            changes,
            target_project,
            target_instance,
            target_database,
            dialect,
            next: 0,
            step: Step::Validate,
            applied_count: 0,
            last_issue: None,
            last_sheet: None,
            failure: None,
        }
    }

    /// The outcome so far.
    pub fn outcome(&self) -> (r: MigrationOutcome)
        ensures
            r.last_issue == self.last_issue,
            r.last_sheet == self.last_sheet,
            r.applied_count == self.applied_count,
            r.all_succeeded == (self.applied_count == self.changes@.len()),
            r.failure == self.failure,
    {
        MigrationOutcome {
            last_issue: copy_opt_issue(&self.last_issue),
            last_sheet: copy_opt_string(&self.last_sheet),
            applied_count: self.applied_count,
            all_succeeded: self.applied_count == self.changes.len(),
            failure: copy_opt_string(&self.failure),
        }
    }

    /// The backend call to make next, or the outcome once the run is over.
    pub fn next_action(&self) -> (r: MigrationAction)
        requires
            self.wf(),
        ensures
            self.is_finished() ==> match r {
                MigrationAction::Finished(o) => {
                    &&& o.last_issue == self.last_issue
                    &&& o.last_sheet == self.last_sheet
                    &&& o.applied_count == self.applied_count
                    &&& o.all_succeeded == (self.applied_count == self.changes@.len())
                    &&& o.failure == self.failure
                },
                _ => false,
            },
            !self.is_finished() ==> ({
                let c = self.changes@[self.next as int];
                let path = database_path(self.target_instance@, self.target_database@);
                match self.step {
                    Step::Validate => match r {
                        MigrationAction::Validate(q) => q.name@ == path && q.statement@ == c.statement.0@,
                        _ => false,
                    },
                    Step::RegisterSheet => match r {
                        MigrationAction::RegisterSheet { project, request } => {
                            &&& project == self.target_project
                            &&& request.sql_statement.0@ == base64_standard(c.statement.0@)
                            &&& request.engine == self.dialect
                        },
                        _ => false,
                    },
                    Step::CreatePlan(sheet) => match r {
                        MigrationAction::CreatePlan { project, config } => {
                            &&& project == self.target_project
                            &&& config.target@ == path
                            &&& config.sheet == sheet
                            &&& config.config_type == ChangeDatabaseConfigType::Migrate
                        },
                        _ => false,
                    },
                    Step::CreateIssue(_, plan) => match r {
                        MigrationAction::CreateIssue { project, plan: p } => project == self.target_project
                            && p == plan,
                        _ => false,
                    },
                    Step::CreateRollout(_, plan, issue) => match r {
                        MigrationAction::CreateRollout { project, plan: p, issue: i } => project
                            == self.target_project && p == plan && i == issue,
                        _ => false,
                    },
                    Step::AwaitRollout(_) => r is AwaitRollout,
                }
            }),
    {
        if self.failure.is_some() || self.next >= self.changes.len() {
            return MigrationAction::Finished(self.outcome());
        }
        let c = &self.changes[self.next];
        match &self.step {
            Step::Validate => MigrationAction::Validate(
                SqlCheckRequest {
                    name: database_path_string(self.target_instance.as_str(), self.target_database.as_str()),
                    statement: c.statement.0.clone(),
                },
            ),
            Step::RegisterSheet => MigrationAction::RegisterSheet {
                project: self.target_project.clone(),
                request: SheetRequest {
                    sql_statement: EncodedStatement::encode(&c.statement),
                    engine: self.dialect,
                },
            },
            Step::CreatePlan(sheet) => MigrationAction::CreatePlan {
                project: self.target_project.clone(),
                config: ChangeDatabaseConfig {
                    target: database_path_string(self.target_instance.as_str(), self.target_database.as_str()),
                    sheet: sheet.copy(),
                    config_type: ChangeDatabaseConfigType::Migrate,
                },
            },
            Step::CreateIssue(_, plan) => MigrationAction::CreateIssue {
                project: self.target_project.clone(),
                plan: plan.copy(),
            },
            Step::CreateRollout(_, plan, issue) => MigrationAction::CreateRollout {
                project: self.target_project.clone(),
                plan: plan.copy(),
                issue: issue.copy(),
            },
            Step::AwaitRollout(_) => MigrationAction::AwaitRollout,
        }
    }

    /// Takes in how the current step went. A result that fits the step moves
    /// the pipeline on; the end of a successful rollout completes the change.
    /// A failure, or a result that does not fit the step, stops the run: the
    /// changes already applied stay applied.
    pub fn record(&mut self, result: StepResult)
        requires
            old(self).wf(),
        ensures
            final(self).wf(),
            final(self).changes == old(self).changes,
            final(self).target_project == old(self).target_project,
            final(self).target_instance == old(self).target_instance,
            final(self).target_database == old(self).target_database,
            final(self).dialect == old(self).dialect,
            old(self).is_finished() ==> *final(self) == *old(self),
            !old(self).is_finished() ==> ({
                let o = *old(self);
                let f = *final(self);
                let same_progress = f.next == o.next && f.last_issue == o.last_issue
                    && f.last_sheet == o.last_sheet;
                let moved_to = |st: Step| same_progress && f.failure is None && f.step == st;
                match (o.step, result) {
                    (Step::Validate, StepResult::Validated) => same_progress && f.failure is None
                        && f.step is RegisterSheet,
                    (Step::RegisterSheet, StepResult::SheetRegistered(sh)) => moved_to(Step::CreatePlan(sh)),
                    (Step::CreatePlan(sh), StepResult::PlanCreated(p)) => moved_to(Step::CreateIssue(sh, p)),
                    (Step::CreateIssue(sh, p), StepResult::IssueCreated(i)) => moved_to(
                        Step::CreateRollout(sh, p, i),
                    ),
                    (Step::CreateRollout(sh, _, _), StepResult::RolloutCreated) => moved_to(
                        Step::AwaitRollout(sh),
                    ),
                    (Step::AwaitRollout(sh), StepResult::RolloutSucceeded) => {
                        &&& f.next == o.next + 1
                        &&& f.last_issue == Some(o.changes@[o.next as int].issue)
                        &&& f.last_sheet matches Some(t) && t@ == sheet_text(sh)
                        &&& f.failure is None
                        &&& f.step is Validate
                    },
                    (_, StepResult::Failed(m)) => same_progress && f.failure == Some(m),
                    _ => same_progress && f.failure is Some,
                }
            }),
    {
        if self.failure.is_some() || self.next >= self.changes.len() {
            return;
        }
        match (&self.step, result) {
            (Step::Validate, StepResult::Validated) => {
                self.step = Step::RegisterSheet;
            },
            (Step::RegisterSheet, StepResult::SheetRegistered(sh)) => {
                self.step = Step::CreatePlan(sh);
            },
            (Step::CreatePlan(sh), StepResult::PlanCreated(p)) => {
                let sh = sh.copy();
                self.step = Step::CreateIssue(sh, p);
            },
            (Step::CreateIssue(sh, p), StepResult::IssueCreated(i)) => {
                let sh = sh.copy();
                let p = p.copy();
                self.step = Step::CreateRollout(sh, p, i);
            },
            (Step::CreateRollout(sh, _, _), StepResult::RolloutCreated) => {
                let sh = sh.copy();
                self.step = Step::AwaitRollout(sh);
            },
            (Step::AwaitRollout(sh), StepResult::RolloutSucceeded) => {
                let text = sh.to_string();
                self.last_issue = Some(self.changes[self.next].issue.copy());
                self.last_sheet = Some(text);
                self.next = self.next + 1;
                self.applied_count = self.applied_count + 1;
                self.step = Step::Validate;
            },
            (_, StepResult::Failed(m)) => {
                self.failure = Some(m);
            },
            _ => {
                self.failure = Some("the backend's reply does not fit the pipeline step".to_string());
            },
        }
    }
}

} // verus!
