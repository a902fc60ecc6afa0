use shelltide::error::AppError;
use shelltide::names::{ChangeLogName, IssueName, NameError, NamePart, PlanName, RevisionName, RevisionVersion, SheetName};
use shelltide::text::{format_u32, parse_u32};
use shelltide::types::{EncodedStatement, StringStatement};

#[test]
fn test_issue_name_deserialization() {
    let happy_inputs = vec![
        ("projects/dev-project/issues/101", "dev-project", 101),
        ("projects/dev-project1/issues/102", "dev-project1", 102),
        ("projects/dev-project2/issues/103", "dev-project2", 103),
    ];
    let unhappy_inputs = vec![
        ("instances/my-instance/databases/my-db/changelogs/101", "invalid issue number"),
        ("projects/dev-project1/issues", "cannot find issue number"),
        ("projects/issues/103", "cannot find issue number"),
    ];

    for input in happy_inputs {
        let issue_name = IssueName::parse(input.0).unwrap();
        let (expected_project, expected_number) = (input.1, input.2);
        assert_eq!(issue_name.project, expected_project);
        assert_eq!(issue_name.number, expected_number);
    }

    for input in unhappy_inputs {
        let result = IssueName::parse(input.0);
        let expected_error = input.1;
        assert!(result.is_err());
        assert!(result.unwrap_err().message().contains(expected_error));
    }
}

#[test]
fn test_changelog_name_deserialization() {
    let happy_inputs = vec![
        ("instances/my-instance/databases/my-db/changelogs/101", "my-instance", "my-db", 101),
        ("instances/my-instance1/databases/my-db1/changelogs/102", "my-instance1", "my-db1", 102),
        ("instances/my-instance2/databases/my-db2/changelogs/103", "my-instance2", "my-db2", 103),
    ];
    let unhappy_inputs = vec![
        ("instances/my-instance/databases/my-db/changelogs", "cannot find changelog number"),
        ("projects/dev-project1/issues/101", "cannot find changelog number"),
        ("instances/my-instance/changelogs/102", "cannot find changelog number"),
    ];

    for input in happy_inputs {
        let changelog_name = ChangeLogName::parse(input.0).unwrap();
        let (expected_instance, expected_database, expected_number) = (input.1, input.2, input.3);
        assert_eq!(changelog_name.instance, expected_instance);
        assert_eq!(changelog_name.database, expected_database);
        assert_eq!(changelog_name.number, expected_number);
    }

    for input in unhappy_inputs {
        let result = ChangeLogName::parse(input.0);
        let expected_error = input.1;
        assert!(result.is_err());
        assert!(result.unwrap_err().message().contains(expected_error));
    }
}

#[test]
fn test_revision_version_deserialization() {
    let happy_inputs = vec![
        ("dev-project#101", "dev-project", 101),
        ("dev-project1#102", "dev-project1", 102),
        ("dev-project2#103", "dev-project2", 103),
    ];

    for input in happy_inputs {
        let revision_version = RevisionVersion::new(input.0.to_string()).unwrap();
        let (expected_project_name, expected_number) = (input.1, input.2);
        assert_eq!(revision_version.project_name, expected_project_name);
        assert_eq!(revision_version.number, expected_number);
    }
}

#[test]
fn test_sheet_name_serde() {
    let happy_inputs = vec![
        ("projects/dev-project/sheets/101", "dev-project", 101),
        ("projects/dev-project1/sheets/102", "dev-project1", 102),
        ("projects/dev-project2/sheets/103", "dev-project2", 103),
    ];

    for input in happy_inputs {
        let sheet_name = SheetName::parse(input.0).unwrap();
        let (expected_project_name, expected_number) = (input.1, input.2);
        assert_eq!(sheet_name.project_name, expected_project_name);
        assert_eq!(sheet_name.number, expected_number);

        let serialized = sheet_name.to_string();
        assert_eq!(serialized, input.0);
    }
}

#[test]
fn test_encoded_statement_from_string_statement() {
    let statement = StringStatement("SELECT 1".to_string());
    let encoded_statement: EncodedStatement = statement.into();
    assert_eq!(encoded_statement.0, "U0VMRUNUIDE=".to_string());
}

#[test]
fn test_plan_name_deserialization() {
    let happy_inputs = vec![
        ("projects/dev-project/plans/101", "dev-project", 101),
        ("projects/dev-project1/plans/102", "dev-project1", 102),
        ("projects/dev-project2/plans/103", "dev-project2", 103),
    ];

    for input in happy_inputs {
        let plan_name = PlanName::parse(input.0).unwrap();
        let (expected_project_name, expected_number) = (input.1, input.2);
        assert_eq!(plan_name.project_name, expected_project_name);
        assert_eq!(plan_name.number, expected_number);
    }
}

#[test]
fn encode_statement_of_empty_and_longer_text() {
    let empty = EncodedStatement::encode(&StringStatement(String::new()));
    assert_eq!(empty.0, "");
    let longer = EncodedStatement::encode(&StringStatement("CREATE TABLE t (id INT);".to_string()));
    assert_eq!(longer.0, "Q1JFQVRFIFRBQkxFIHQgKGlkIElOVCk7");
}

#[test]
fn marker_round_trip_on_examples() {
    for (project, number) in [("dev-project", 0u32), ("p", 4294967295), ("", 17), ("a/b", 9), ("a#b", 1), ("##", 5)] {
        let marker = RevisionVersion { project_name: project.to_string(), number };
        let text = marker.to_string();
        assert_eq!(text, format!("{}#{}", project, number));
        assert_eq!(RevisionVersion::new(text).unwrap(), marker);
    }
}

#[test]
fn marker_errors() {
    let v = RevisionVersion::new("a#b#1".to_string()).unwrap();
    assert_eq!((v.project_name.as_str(), v.number), ("a#b", 1));
    match RevisionVersion::new("no-marker".to_string()) {
        Err(AppError::InvalidRevisionVersion(m)) => assert_eq!(m, "Invalid revision version: no-marker"),
        other => panic!("unexpected {:?}", other),
    }
    match RevisionVersion::new("a#1#b".to_string()) {
        Err(AppError::InvalidRevisionVersion(m)) => assert_eq!(m, "Invalid issue number: a#1#b"),
        other => panic!("unexpected {:?}", other),
    }
    match RevisionVersion::new("proj#x1".to_string()) {
        Err(AppError::InvalidRevisionVersion(m)) => assert_eq!(m, "Invalid issue number: proj#x1"),
        other => panic!("unexpected {:?}", other),
    }
    assert!(RevisionVersion::new("proj#".to_string()).is_err());
}

#[test]
fn name_formats() {
    let issue = IssueName { project: "alpha".to_string(), number: 7 };
    assert_eq!(issue.to_string(), "projects/alpha/issues/7");
    let plan = PlanName { project_name: "beta".to_string(), number: 120 };
    assert_eq!(plan.to_string(), "projects/beta/plans/120");
    let rev = RevisionName { instance: "i".to_string(), database: "d".to_string(), number: 3 };
    assert_eq!(rev.to_string(), "instances/i/databases/d/revisions/3");
    let parsed = RevisionName::parse("instances/i/databases/d/revisions/3").unwrap();
    assert_eq!(parsed, rev);
    assert_eq!(RevisionName::parse("instances/i/databases/d/revisions/x").unwrap_err(), NameError::InvalidNumber(NamePart::Revision));
    assert_eq!(IssueName::parse("projects").unwrap_err(), NameError::Missing(NamePart::Project));
    assert_eq!(ChangeLogName::parse("instances").unwrap_err().message(), "cannot find instance name");
    assert_eq!(ChangeLogName::parse("instances/a/databases").unwrap_err().message(), "cannot find database name");
}

#[test]
fn decimal_numbers() {
    assert_eq!(parse_u32("0"), Some(0));
    assert_eq!(parse_u32("+42"), Some(42));
    assert_eq!(parse_u32("4294967295"), Some(4294967295));
    assert_eq!(parse_u32("4294967296"), None);
    assert_eq!(parse_u32("99999999999x"), None);
    assert_eq!(parse_u32(""), None);
    assert_eq!(parse_u32("+"), None);
    assert_eq!(parse_u32("-1"), None);
    assert_eq!(parse_u32("12a"), None);
    assert_eq!(format_u32(0), "0");
    assert_eq!(format_u32(1090), "1090");
    assert_eq!(format_u32(4294967295), "4294967295");
}

#[test]
fn project_names_read_back() {
    let issue = IssueName { project: "dev-project".to_string(), number: 4096 };
    assert_eq!(IssueName::parse(&issue.to_string()).unwrap(), issue);
    let sheet = SheetName { project_name: "x".to_string(), number: 0 };
    assert_eq!(SheetName::parse(&sheet.to_string()).unwrap(), sheet);
}
