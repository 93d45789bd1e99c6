use iced_task_scheduler::load::{decode_leniently, task_from_value, tasks_from_document};
use iced_task_scheduler::{
    load_tasks, Interval, JsonValue, StorageError, StoredFile, Task, Timestamp,
};

fn text(content: &str) -> StoredFile {
    StoredFile::Text { text: content.to_string(), strict: None }
}

fn encode(tasks: &[Task]) -> String {
    let mut items = Vec::new();
    for task in tasks {
        let mut object = serde_json::Map::new();
        object.insert("name".to_string(), serde_json::Value::String(task.name.clone()));
        object.insert(
            "interval".to_string(),
            serde_json::Value::String(task.interval.to_string()),
        );
        let last_run = match task.last_run {
            Some(at) => serde_json::Value::String(
                chrono::DateTime::from_timestamp(at.secs, at.nanos).unwrap().to_rfc3339(),
            ),
            None => serde_json::Value::Null,
        };
        object.insert("last_run".to_string(), last_run);
        object.insert("enabled".to_string(), serde_json::Value::Bool(task.enabled));
        items.push(serde_json::Value::Object(object));
    }
    serde_json::to_string(&serde_json::Value::Array(items)).unwrap()
}

#[test]
fn test_task_enabled_serialization() {
    let mut task = Task::new("Test", Interval::Daily);
    task.enabled = true;

    let json = encode(&[task]);
    let decoded = load_tasks(text(&json)).unwrap();

    assert_eq!(decoded.len(), 1);
    assert!(
        decoded[0].enabled,
        "Task enabled state should be preserved after serialization"
    );
}

#[test]
fn test_empty_task_name_handling() {
    let task = Task::new("", Interval::Daily);
    assert_eq!(task.name, "", "Empty task names should be allowed");

    let json = encode(&[task]);
    let decoded = load_tasks(text(&json)).unwrap();
    assert_eq!(decoded.len(), 1);
    assert_eq!(
        decoded[0].name, "",
        "Empty names should round-trip through JSON"
    );
}

#[test]
fn missing_last_run_loads_as_never_run() {
    let tasks =
        load_tasks(text(r#"[{"name":"X","interval":"hourly","enabled":true}]"#)).unwrap();
    assert_eq!(tasks.len(), 1);
    assert_eq!(tasks[0].name, "X");
    assert_eq!(tasks[0].interval, Interval::Hourly);
    assert!(tasks[0].enabled);
    assert_eq!(tasks[0].last_run, None);
}

#[test]
fn object_at_top_level_is_malformed() {
    assert_eq!(
        load_tasks(text(r#"{"name":"X"}"#)).unwrap_err(),
        StorageError::MalformedDocument
    );
    assert_eq!(load_tasks(text("null")).unwrap_err(), StorageError::MalformedDocument);
    assert_eq!(load_tasks(text("17")).unwrap_err(), StorageError::MalformedDocument);
    assert_eq!(load_tasks(text(r#""[]""#)).unwrap_err(), StorageError::MalformedDocument);
}

#[test]
fn text_that_is_not_json_is_malformed() {
    assert_eq!(load_tasks(text("")).unwrap_err(), StorageError::MalformedDocument);
    assert_eq!(load_tasks(text("[{")).unwrap_err(), StorageError::MalformedDocument);
    assert_eq!(load_tasks(text("[] []")).unwrap_err(), StorageError::MalformedDocument);
    assert_eq!(
        decode_leniently("not json").unwrap_err(),
        StorageError::MalformedDocument
    );
}

#[test]
fn empty_array_loads_as_no_tasks() {
    assert!(load_tasks(text("[]")).unwrap().is_empty());
    assert!(load_tasks(text(" [ ] ")).unwrap().is_empty());
}

#[test]
fn absent_file_loads_as_no_tasks() {
    assert!(load_tasks(StoredFile::Absent).unwrap().is_empty());
}

#[test]
fn unreadable_file_is_a_read_failure() {
    assert_eq!(load_tasks(StoredFile::Unreadable).unwrap_err(), StorageError::ReadFailure);
}

#[test]
fn no_location_is_reported() {
    assert_eq!(
        load_tasks(StoredFile::NoLocation).unwrap_err(),
        StorageError::NoStorageLocation
    );
}

#[test]
fn strict_result_stands_where_there_is_one() {
    let mut strict = Task::new("Strict", Interval::Weekly);
    strict.enabled = true;
    strict.last_run = Some(Timestamp::new(5, 6));
    let found = StoredFile::Text {
        text: r#"[{"name":"Loose","interval":"hourly"}]"#.to_string(),
        strict: Some(vec![strict]),
    };
    let tasks = load_tasks(found).unwrap();
    assert_eq!(tasks.len(), 1);
    assert_eq!(tasks[0].name, "Strict");
    assert_eq!(tasks[0].interval, Interval::Weekly);
    assert_eq!(tasks[0].last_run, Some(Timestamp::new(5, 6)));
    assert!(tasks[0].enabled);
}

#[test]
fn every_field_has_its_default() {
    let tasks = load_tasks(text(r#"[{}, 3, "x", null, [], {"other": 1}]"#)).unwrap();
    assert_eq!(tasks.len(), 6);
    for task in &tasks {
        assert_eq!(task.name, "");
        assert_eq!(task.interval, Interval::Daily);
        assert_eq!(task.last_run, None);
        assert!(!task.enabled);
    }
}

#[test]
fn fields_of_the_wrong_kind_take_their_default() {
    let tasks = load_tasks(text(
        r#"[{"name": 5, "interval": true, "enabled": "true", "last_run": 1700000000},
            {"name": null, "interval": null, "enabled": 1, "last_run": {"at": "now"}},
            {"name": ["a"], "interval": "Fortnightly", "enabled": null, "last_run": "yesterday"}]"#,
    ))
    .unwrap();
    assert_eq!(tasks.len(), 3);
    for task in &tasks {
        assert_eq!(task.name, "");
        assert_eq!(task.interval, Interval::Daily);
        assert_eq!(task.last_run, None);
        assert!(!task.enabled);
    }
}

#[test]
fn interval_labels_are_read_in_any_case() {
    let tasks = load_tasks(text(
        r#"[{"interval":"Hourly"},{"interval":"hourly"},{"interval":"HOURLY"},
            {"interval":"Weekly"},{"interval":"weekly"},{"interval":"wEEKLY"},
            {"interval":"Daily"},{"interval":"daily"},{"interval":"sometimes"}]"#,
    ))
    .unwrap();
    let intervals: Vec<Interval> = tasks.iter().map(|task| task.interval).collect();
    assert_eq!(
        intervals,
        vec![
            Interval::Hourly,
            Interval::Hourly,
            Interval::Hourly,
            Interval::Weekly,
            Interval::Weekly,
            Interval::Weekly,
            Interval::Daily,
            Interval::Daily,
            Interval::Daily,
        ]
    );
}

#[test]
fn last_run_is_read_as_an_instant() {
    let tasks = load_tasks(text(
        r#"[{"name":"a","last_run":"1970-01-01T00:00:01Z"},
            {"name":"b","last_run":"2024-05-01T12:30:00.25+02:00"},
            {"name":"c","last_run":"1969-12-31T23:59:59.999999999-00:00"},
            {"name":"d","last_run":null},
            {"name":"e","last_run":"2024-05-01"},
            {"name":"f","last_run":"2024-13-01T00:00:00Z"}]"#,
    ))
    .unwrap();
    assert_eq!(tasks[0].last_run, Some(Timestamp::new(1, 0)));
    assert_eq!(tasks[1].last_run, Some(Timestamp::new(1_714_559_400, 250_000_000)));
    assert_eq!(tasks[2].last_run, Some(Timestamp::new(-1, 999_999_999)));
    assert_eq!(tasks[3].last_run, None);
    assert_eq!(tasks[4].last_run, None);
    assert_eq!(tasks[5].last_run, None);
}

#[test]
fn last_run_keeps_a_leap_second() {
    let tasks = load_tasks(text(r#"[{"last_run":"2016-12-31T23:59:60.5Z"}]"#)).unwrap();
    assert_eq!(tasks[0].last_run, Some(Timestamp::new(1_483_228_799, 1_500_000_000)));
}

#[test]
fn order_of_the_document_is_kept() {
    let tasks = load_tasks(text(
        r#"[{"name":"third"},{"name":"first"},{"name":"second"},{"name":"first"}]"#,
    ))
    .unwrap();
    let names: Vec<&str> = tasks.iter().map(|task| task.name.as_str()).collect();
    assert_eq!(names, vec!["third", "first", "second", "first"]);
}

#[test]
fn last_of_two_equal_keys_is_read() {
    let tasks = load_tasks(text(r#"[{"name":"one","name":"two"}]"#)).unwrap();
    assert_eq!(tasks[0].name, "two");
}

#[test]
fn names_keep_their_characters() {
    let tasks = load_tasks(text(r#"[{"name":"café \"quoted\" \n 日本"}]"#)).unwrap();
    assert_eq!(tasks[0].name, "café \"quoted\" \n 日本");
}

#[test]
fn document_built_by_hand_is_read_leniently() {
    let item = JsonValue::Object(vec![
        ("enabled".to_string(), JsonValue::Bool(true)),
        ("name".to_string(), JsonValue::String("By hand".to_string())),
        ("interval".to_string(), JsonValue::String("WEEKLY".to_string())),
        ("last_run".to_string(), JsonValue::String("2001-09-09T01:46:40Z".to_string())),
        ("name".to_string(), JsonValue::String("ignored".to_string())),
    ]);
    let task = task_from_value(&item);
    assert_eq!(task.name, "By hand");
    assert_eq!(task.interval, Interval::Weekly);
    assert_eq!(task.last_run, Some(Timestamp::new(1_000_000_000, 0)));
    assert!(task.enabled);

    let document = JsonValue::Array(vec![item, JsonValue::Number("1.5".to_string())]);
    let tasks = tasks_from_document(&document).unwrap();
    assert_eq!(tasks.len(), 2);
    assert_eq!(tasks[0].name, "By hand");
    assert_eq!(tasks[1].name, "");

    assert_eq!(
        tasks_from_document(&JsonValue::Object(Vec::new())).unwrap_err(),
        StorageError::MalformedDocument
    );
    assert_eq!(
        tasks_from_document(&JsonValue::Null).unwrap_err(),
        StorageError::MalformedDocument
    );
}

#[test]
fn get_finds_the_first_member_of_a_key() {
    let object = JsonValue::Object(vec![
        ("a".to_string(), JsonValue::Bool(false)),
        ("b".to_string(), JsonValue::Null),
        ("a".to_string(), JsonValue::Bool(true)),
    ]);
    assert!(matches!(object.get("a"), Some(JsonValue::Bool(false))));
    assert!(matches!(object.get("b"), Some(JsonValue::Null)));
    assert!(object.get("c").is_none());
    assert!(object.get("").is_none());
    assert!(JsonValue::Array(Vec::new()).get("a").is_none());
    assert!(JsonValue::String("a".to_string()).get("a").is_none());
}

#[test]
fn error_messages() {
    assert_eq!(
        StorageError::NoStorageLocation.to_string(),
        "no storage location is available"
    );
    assert_eq!(StorageError::ReadFailure.to_string(), "the task file could not be read");
    assert_eq!(
        StorageError::MalformedDocument.to_string(),
        "the task file does not hold a JSON array"
    );
    assert_eq!(StorageError::WriteFailure.to_string(), "the task file could not be written");
    assert_eq!(
        StorageError::PersistentReadFailure(Box::new(StorageError::MalformedDocument)).to_string(),
        "the stored tasks could not be read: the task file does not hold a JSON array"
    );
    let error = StorageError::PersistentReadFailure(Box::new(StorageError::ReadFailure));
    assert_eq!(error.clone(), error);
}
