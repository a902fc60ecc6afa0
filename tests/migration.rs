use shelltide::cli::EnvDb;
use shelltide::config::{AppConfig, Credentials};
use shelltide::error::AppError;
use shelltide::names::{ChangeLogName, IssueName, PlanName, RevisionVersion, SheetName};
use shelltide::orchestrator::{plan_run, resolve_target_version, Migration, MigrationAction, MigrationOutcome, RunPlan, StepResult};
use shelltide::recorder::{current_ordinal, latest_revision, revision_to_record};
use shelltide::selector::{latest_done_issue_no, select_changelogs, source_changelogs};
use shelltide::types::{ChangedResource, Changelog, ChangelogType, Database, Issue, Revision, SQLDialect, StringStatement, Timestamp};
use std::collections::HashMap;

fn change(issue: u32, seconds: i64, dbs: &[&str], statement: &str) -> Changelog {
    Changelog {
        name: ChangeLogName { instance: "src".to_string(), database: "db".to_string(), number: issue + 1000 },
        create_time: Timestamp { seconds, nanos: 0 },
        statement: StringStatement(statement.to_string()),
        issue: IssueName { project: "dev".to_string(), number: issue },
        changed_resources: ChangedResource {
            databases: dbs.iter().map(|d| Database { name: d.to_string() }).collect(),
        },
        changelog_type: Some(ChangelogType::Migrate),
    }
}

fn issues(v: &[Changelog]) -> Vec<u32> {
    v.iter().map(|c| c.issue.number).collect()
}

#[test]
fn selection_keeps_range_database_and_statement() {
    let logs = vec![
        change(1, 10, &["app"], "A"),
        change(2, 20, &["app"], "B"),
        change(3, 30, &["other"], "C"),
        change(4, 40, &["x", "app"], ""),
        change(5, 50, &["app"], "E"),
        change(6, 60, &["app"], "F"),
    ];
    let r = select_changelogs(logs, 1, 5, "app");
    assert_eq!(issues(&r), vec![2, 5]);
}

#[test]
fn selection_sorts_by_time_and_keeps_ties_in_order() {
    let mut a = change(3, 100, &["app"], "A");
    a.create_time.nanos = 5;
    let b = change(4, 100, &["app"], "B");
    let c = change(5, 50, &["app"], "C");
    let d = change(6, 100, &["app"], "D");
    let mut e = change(7, 100, &["app"], "E");
    e.create_time.nanos = 5;
    let r = select_changelogs(vec![a, b, c, d, e], 0, 10, "app");
    assert_eq!(issues(&r), vec![5, 4, 6, 3, 7]);
}

#[test]
fn selection_empty_when_nothing_applies() {
    assert!(select_changelogs(vec![], 0, 10, "app").is_empty());
    let r = select_changelogs(vec![change(3, 1, &["app"], "A")], 3, 10, "app");
    assert!(r.is_empty());
}

#[test]
fn source_changelogs_keep_project_and_statement() {
    let mut other = change(2, 2, &["app"], "B");
    other.issue.project = "prod".to_string();
    let r = source_changelogs(vec![change(1, 1, &["app"], "A"), other, change(3, 3, &["app"], "")], "dev");
    assert_eq!(issues(&r), vec![1]);
}

#[test]
fn up_to_date_when_desired_equals_current() {
    let logs = vec![change(4, 1, &["app"], "A"), change(5, 2, &["app"], "B")];
    assert!(matches!(plan_run(logs, 5, 5, "app"), RunPlan::UpToDate));
    let logs = vec![change(4, 1, &["app"], "A")];
    assert!(matches!(plan_run(logs, 7, 5, "app"), RunPlan::UpToDate));
}

fn sheet(n: u32) -> SheetName {
    SheetName { project_name: "prod".to_string(), number: n }
}

/// Plays the backend; `fail_at` names a (change index, step index) that fails.
fn drive(changes: Vec<Changelog>, fail_at: Option<(usize, usize)>) -> (MigrationOutcome, Vec<String>) {
    let mut m = Migration::new(changes, "prod".to_string(), "prod-inst".to_string(), "app".to_string(), SQLDialect::MySQL);
    let mut validated = Vec::new();
    let mut counter: u32 = 100;
    loop {
        let action = m.next_action();
        let change_index = m.next;
        let step_index = match &action {
            MigrationAction::Validate(_) => 0,
            MigrationAction::RegisterSheet { .. } => 1,
            MigrationAction::CreatePlan { .. } => 2,
            MigrationAction::CreateIssue { .. } => 3,
            MigrationAction::CreateRollout { .. } => 4,
            MigrationAction::AwaitRollout => 5,
            MigrationAction::Finished(_) => 6,
        };
        if let MigrationAction::Finished(o) = action {
            return (o, validated);
        }
        if fail_at == Some((change_index, step_index)) {
            m.record(StepResult::Failed("boom".to_string()));
            continue;
        }
        counter += 1;
        let result = match action {
            MigrationAction::Validate(q) => {
                assert_eq!(q.name, "instances/prod-inst/databases/app");
                validated.push(q.statement);
                StepResult::Validated
            }
            MigrationAction::RegisterSheet { project, request } => {
                assert_eq!(project, "prod");
                assert_eq!(request.engine, SQLDialect::MySQL);
                StepResult::SheetRegistered(sheet(counter))
            }
            MigrationAction::CreatePlan { config, .. } => {
                assert_eq!(config.target, "instances/prod-inst/databases/app");
                StepResult::PlanCreated(PlanName { project_name: "prod".to_string(), number: counter })
            }
            MigrationAction::CreateIssue { .. } => StepResult::IssueCreated(IssueName { project: "prod".to_string(), number: counter }),
            MigrationAction::CreateRollout { .. } => StepResult::RolloutCreated,
            MigrationAction::AwaitRollout => StepResult::RolloutSucceeded,
            MigrationAction::Finished(_) => unreachable!(),
        };
        m.record(result);
    }
}

#[test]
fn three_changes_all_succeed() {
    let changes = vec![change(11, 1, &["app"], "A"), change(12, 2, &["app"], "B"), change(13, 3, &["app"], "C")];
    let (outcome, validated) = drive(changes, None);
    assert_eq!(validated, vec!["A", "B", "C"]);
    assert!(outcome.all_succeeded);
    assert_eq!(outcome.applied_count, 3);
    // each change uses six counter values; the sheet of the third is the 13th + 1
    let last_sheet = outcome.last_sheet.clone().unwrap();
    assert_eq!(last_sheet, sheet(114).to_string());
    let rec = revision_to_record(&outcome, "dev", 20, "projects/prod/sheets/1").unwrap();
    assert_eq!(rec.version, RevisionVersion { project_name: "dev".to_string(), number: 20 });
    assert_eq!(rec.sheet, "projects/prod/sheets/114");
}

#[test]
fn failure_on_second_change_stops_the_run() {
    let changes = vec![change(11, 1, &["app"], "A"), change(12, 2, &["app"], "B"), change(13, 3, &["app"], "C")];
    let (outcome, validated) = drive(changes, Some((1, 2)));
    assert_eq!(validated, vec!["A", "B"]);
    assert!(!outcome.all_succeeded);
    assert_eq!(outcome.applied_count, 1);
    assert_eq!(outcome.failure.as_deref(), Some("boom"));
    let rec = revision_to_record(&outcome, "dev", 20, "projects/prod/sheets/1").unwrap();
    assert_eq!(rec.version.number, 11);
    assert_eq!(rec.version.project_name, "dev");
}

#[test]
fn failure_on_first_change_writes_no_checkpoint() {
    let changes = vec![change(11, 1, &["app"], "A"), change(12, 2, &["app"], "B")];
    let (outcome, validated) = drive(changes, Some((0, 0)));
    assert_eq!(validated.len(), 0);
    assert_eq!(outcome.applied_count, 0);
    assert!(revision_to_record(&outcome, "dev", 20, "projects/prod/sheets/1").is_none());
}

#[test]
fn empty_selection_moves_checkpoint_to_desired() {
    let (outcome, validated) = drive(vec![], None);
    assert!(validated.is_empty());
    assert!(outcome.all_succeeded);
    let rec = revision_to_record(&outcome, "dev", 42, "projects/prod/sheets/9").unwrap();
    assert_eq!(rec.version.to_string(), "dev#42");
    assert_eq!(rec.sheet, "projects/prod/sheets/9");
}

#[test]
fn rerun_after_success_is_up_to_date() {
    let logs = || vec![change(11, 1, &["app"], "A"), change(12, 2, &["app"], "B")];
    let selected = match plan_run(logs(), 10, 12, "app") {
        RunPlan::Apply(v) => v,
        RunPlan::UpToDate => panic!("expected work"),
    };
    let (outcome, _) = drive(selected, None);
    let rec = revision_to_record(&outcome, "dev", 12, "").unwrap();
    let stored = Some(Revision { create_time: None, version: Some(rec.version), sheet: rec.sheet });
    let current = current_ordinal(&stored);
    assert_eq!(current, 12);
    assert!(matches!(plan_run(logs(), current, 12, "app"), RunPlan::UpToDate));
    assert!(matches!(plan_run(logs(), current, 12, "app"), RunPlan::UpToDate));
}

#[test]
fn mismatched_reply_stops_the_run() {
    let mut m = Migration::new(vec![change(1, 1, &["app"], "A")], "p".to_string(), "i".to_string(), "app".to_string(), SQLDialect::MySQL);
    m.record(StepResult::RolloutSucceeded);
    match m.next_action() {
        MigrationAction::Finished(o) => {
            assert!(o.failure.is_some());
            assert_eq!(o.applied_count, 0);
        }
        other => panic!("unexpected {:?}", other),
    }
}

#[test]
fn target_version_resolution() {
    assert_eq!(resolve_target_version("LATEST", 9).unwrap(), 9);
    assert_eq!(resolve_target_version("latest", 9).unwrap(), 9);
    assert_eq!(resolve_target_version("LaTeSt", 3).unwrap(), 3);
    assert_eq!(resolve_target_version("17", 9).unwrap(), 17);
    match resolve_target_version("abc", 9) {
        Err(AppError::InvalidArgs(m)) => assert_eq!(m, "Invalid version 'abc'. Must be an integer or 'LATEST'."),
        other => panic!("unexpected {:?}", other),
    }
}

#[test]
fn current_ordinal_defaults_to_zero() {
    assert_eq!(current_ordinal(&None), 0);
    let r = Revision { create_time: None, version: None, sheet: String::new() };
    assert_eq!(current_ordinal(&Some(r)), 0);
}

fn rev(seconds: Option<i64>, number: u32) -> Revision {
    Revision {
        create_time: seconds.map(|s| Timestamp { seconds: s, nanos: 0 }),
        version: Some(RevisionVersion { project_name: "dev".to_string(), number }),
        sheet: format!("projects/dev/sheets/{}", number),
    }
}

#[test]
fn latest_revision_takes_last_of_the_latest() {
    let r = latest_revision(vec![rev(Some(5), 1), rev(Some(9), 2), rev(None, 3), rev(Some(9), 4), rev(Some(1), 5)]).unwrap();
    assert_eq!(r.version.unwrap().number, 4);
    assert!(latest_revision(vec![rev(None, 1)]).is_none());
    assert!(latest_revision(vec![]).is_none());
}

#[test]
fn latest_done_issue() {
    let mk = |n: u32| Issue { name: IssueName { project: "dev".to_string(), number: n } };
    assert_eq!(latest_done_issue_no(&vec![mk(3), mk(10), mk(7)]), 10);
    assert_eq!(latest_done_issue_no(&vec![]), 0);
}

#[test]
fn env_db_parsing() {
    let v = EnvDb::parse("prod/app").unwrap();
    assert_eq!((v.env.as_str(), v.db.as_str()), ("prod", "app"));
    assert_eq!(EnvDb::parse("prod").unwrap_err(), "Invalid value 'prod'. Use '<env>/<database>'");
    assert!(EnvDb::parse("a/b/c").is_err());
}

#[test]
fn credentials_lookup() {
    let mut config = AppConfig { default_source_env: None, credentials: None, environments: HashMap::new(), releases: HashMap::new() };
    match config.get_credentials() {
        Err(AppError::Config(m)) => assert!(m.contains("shelltide login")),
        other => panic!("unexpected {:?}", other),
    }
    config.credentials = Some(Credentials {
        url: "https://fake-url.com".to_string(),
        service_account: "fake-service-account".to_string(),
        service_key: Some("fake-service-key".to_string()),
        access_token: "fake-access-token".to_string(),
    });
    assert_eq!(config.get_credentials().unwrap().access_token, "fake-access-token");
}

#[test]
fn changelog_kinds() {
    assert_eq!(ChangelogType::parse("MIGRATE"), Some(ChangelogType::Migrate));
    assert_eq!(ChangelogType::parse("BASELINE"), Some(ChangelogType::Baseline));
    assert_eq!(ChangelogType::parse("DATA"), Some(ChangelogType::Data));
    assert_eq!(ChangelogType::parse("migrate"), None);
}
