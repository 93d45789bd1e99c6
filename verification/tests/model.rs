use chrono::{DateTime, Duration, Local};
use iced_task_scheduler::schedule::tasks_to_run;
use iced_task_scheduler::{Interval, Task, Timestamp};

fn stamp(moment: DateTime<Local>) -> Timestamp {
    Timestamp::new(moment.timestamp(), moment.timestamp_subsec_nanos())
}

#[test]
fn test_interval_display() {
    assert_eq!(Interval::Hourly.to_string(), "Hourly");
    assert_eq!(Interval::Daily.to_string(), "Daily");
    assert_eq!(Interval::Weekly.to_string(), "Weekly");
}

#[test]
fn test_task_creation() {
    let task = Task::new("Test Task", Interval::Daily);
    assert_eq!(task.name, "Test Task");
    assert_eq!(task.interval, Interval::Daily);
    assert!(!task.enabled);
    assert!(task.last_run.is_none());
}

#[test]
fn test_task_should_run() {
    let now = Local::now();

    let mut task = Task::new("Test", Interval::Hourly);
    assert!(!task.should_run(stamp(now)));

    task.enabled = true;
    assert!(task.should_run(stamp(now)));

    task.last_run = Some(stamp(now - Duration::hours(2)));
    assert!(task.should_run(stamp(now)));

    task.last_run = Some(stamp(now - Duration::minutes(30)));
    assert!(!task.should_run(stamp(now)));
}

#[test]
fn test_daily_interval() {
    let now = Local::now();
    let mut task = Task::new("Daily", Interval::Daily);
    task.enabled = true;

    task.last_run = Some(stamp(now - Duration::days(2)));
    assert!(task.should_run(stamp(now)));

    task.last_run = Some(stamp(now - Duration::hours(23)));
    assert!(!task.should_run(stamp(now)));
}

#[test]
fn test_weekly_interval() {
    let now = Local::now();
    let mut task = Task::new("Weekly", Interval::Weekly);
    task.enabled = true;

    task.last_run = Some(stamp(now - Duration::weeks(2)));
    assert!(task.should_run(stamp(now)));

    task.last_run = Some(stamp(now - Duration::days(6)));
    assert!(!task.should_run(stamp(now)));
}

#[test]
fn test_mark_complete() {
    let mut task = Task::new("Test", Interval::Daily);
    assert!(task.last_run.is_none());

    task.mark_complete();
    assert!(task.last_run.is_some());

    let last = task.last_run.unwrap();
    let marked = DateTime::from_timestamp(last.secs, last.nanos).unwrap();
    let time_diff = Local::now().signed_duration_since(marked).num_seconds();
    assert!(time_diff < 1);
    assert!(time_diff >= 0);
    assert!(last.secs > 1_600_000_000);
}

#[test]
fn test_future_last_run() {
    let now = Local::now();
    let mut task = Task::new("Future", Interval::Daily);
    task.enabled = true;
    task.last_run = Some(stamp(now + Duration::days(1)));

    assert!(
        !task.should_run(stamp(now)),
        "Tasks with future last_run should not run"
    );
}

#[test]
fn disabled_task_is_never_due() {
    let now = Timestamp::new(1_700_000_000, 0);
    let mut task = Task::new("Off", Interval::Hourly);
    assert!(!task.should_run(now));
    task.last_run = Some(Timestamp::new(0, 0));
    assert!(!task.should_run(now));
    task.last_run = Some(Timestamp::new(1_800_000_000, 0));
    assert!(!task.should_run(now));
}

#[test]
fn due_exactly_when_the_interval_has_passed() {
    let last = Timestamp::new(1_700_000_000, 500);
    let cases = [
        (Interval::Hourly, 3_600i64),
        (Interval::Daily, 86_400i64),
        (Interval::Weekly, 604_800i64),
    ];
    for (interval, seconds) in cases {
        let mut task = Task::new("Edge", interval);
        task.enabled = true;
        task.last_run = Some(last);
        assert!(task.should_run(Timestamp::new(last.secs + seconds, 500)));
        assert!(!task.should_run(Timestamp::new(last.secs + seconds, 499)));
        assert!(task.should_run(Timestamp::new(last.secs + seconds, 501)));
        assert!(!task.should_run(last));
    }
}

#[test]
fn due_check_agrees_with_chrono_durations() {
    let now = Local::now();
    let offsets = [
        Duration::minutes(59),
        Duration::minutes(61),
        Duration::hours(24),
        Duration::hours(25),
        Duration::days(7),
        Duration::seconds(-5),
    ];
    for offset in offsets {
        let last = now - offset;
        let elapsed = now.signed_duration_since(last);
        for (interval, wanted) in [
            (Interval::Hourly, elapsed.num_hours() >= 1),
            (Interval::Daily, elapsed.num_days() >= 1),
            (Interval::Weekly, elapsed.num_weeks() >= 1),
        ] {
            let mut task = Task::new("Check", interval);
            task.enabled = true;
            task.last_run = Some(stamp(last));
            assert_eq!(task.should_run(stamp(now)), wanted);
        }
    }
}

#[test]
fn elapsed_nanoseconds_are_exact() {
    let later = Timestamp::new(10, 5);
    let earlier = Timestamp::new(7, 900_000_000);
    assert_eq!(later.nanos_since(&earlier), 2_100_000_005);
    assert_eq!(earlier.nanos_since(&later), -2_100_000_005);
    let far = Timestamp::new(i64::MAX, u32::MAX);
    let near = Timestamp::new(i64::MIN, 0);
    assert_eq!(
        far.nanos_since(&near),
        (i64::MAX as i128 - i64::MIN as i128) * 1_000_000_000 + u32::MAX as i128
    );
}

#[test]
fn mark_complete_at_sets_only_the_last_run() {
    let mut task = Task::new("Once", Interval::Weekly);
    task.enabled = true;
    task.mark_complete_at(Timestamp::new(42, 7));
    assert_eq!(task.last_run, Some(Timestamp::new(42, 7)));
    assert_eq!(task.name, "Once");
    assert_eq!(task.interval, Interval::Weekly);
    assert!(task.enabled);
}

#[test]
fn clone_keeps_every_field() {
    let mut task = Task::new("Copy me", Interval::Hourly);
    task.enabled = true;
    task.last_run = Some(Timestamp::new(9, 9));
    let copy = task.clone();
    assert_eq!(copy.name, "Copy me");
    assert_eq!(copy.interval, Interval::Hourly);
    assert_eq!(copy.last_run, Some(Timestamp::new(9, 9)));
    assert!(copy.enabled);
}

#[test]
fn lenient_interval_labels() {
    assert_eq!(Interval::parse_lenient("hourly"), Interval::Hourly);
    assert_eq!(Interval::parse_lenient("Hourly"), Interval::Hourly);
    assert_eq!(Interval::parse_lenient("HOURLY"), Interval::Hourly);
    assert_eq!(Interval::parse_lenient("weekly"), Interval::Weekly);
    assert_eq!(Interval::parse_lenient("WeEkLy"), Interval::Weekly);
    assert_eq!(Interval::parse_lenient("daily"), Interval::Daily);
    assert_eq!(Interval::parse_lenient("monthly"), Interval::Daily);
    assert_eq!(Interval::parse_lenient(""), Interval::Daily);
    assert_eq!(Interval::parse_lenient("hourly "), Interval::Daily);
    assert_eq!(Interval::parse_lenient("wee\u{212A}ly"), Interval::Daily);
}

#[test]
fn tasks_to_run_lists_the_due_positions_in_order() {
    let now = Timestamp::new(1_700_000_000, 0);
    let mut never_ran = Task::new("a", Interval::Daily);
    never_ran.enabled = true;
    let disabled = Task::new("b", Interval::Daily);
    let mut recent = Task::new("c", Interval::Daily);
    recent.enabled = true;
    recent.last_run = Some(Timestamp::new(now.secs - 60, 0));
    let mut old = Task::new("d", Interval::Hourly);
    old.enabled = true;
    old.last_run = Some(Timestamp::new(now.secs - 3_600, 0));
    let tasks = vec![never_ran, disabled, recent, old];
    assert_eq!(tasks_to_run(&tasks, now), vec![0, 3]);
    assert_eq!(tasks_to_run(&[], now), Vec::<usize>::new());
}
