use session_monitor::clock::{get_timestamp, seconds_since_epoch};
use std::time::{Duration, UNIX_EPOCH};
use session_monitor::launch::LaunchResult;
use session_monitor::probe::{
    first_live_child, get_child_processes, is_process_running, is_window_foreground, ChildProbe,
    ForegroundPolicy, ProcessEntry, STILL_ACTIVE,
};

fn row(pid: u32, parent_pid: u32) -> ProcessEntry {
    ProcessEntry { pid, parent_pid }
}

fn child(pid: u32, alive: bool) -> ChildProbe {
    ChildProbe { pid, alive }
}

#[test]
fn only_the_still_running_status_means_alive() {
    assert_eq!(STILL_ACTIVE, 259);
    assert!(is_process_running(Some(259)));
    assert!(!is_process_running(Some(0)));
    assert!(!is_process_running(Some(1)));
    assert!(!is_process_running(Some(258)));
    assert!(!is_process_running(Some(u32::MAX)));
}

#[test]
fn a_failed_query_means_not_alive() {
    assert!(!is_process_running(None));
}

#[test]
fn children_are_the_rows_with_the_given_parent_in_table_order() {
    let table = vec![row(4, 0), row(100, 4), row(7, 100), row(200, 4), row(9, 7), row(300, 4)];
    assert_eq!(get_child_processes(&table, 4), vec![100, 200, 300]);
    assert_eq!(get_child_processes(&table, 100), vec![7]);
    assert_eq!(get_child_processes(&table, 7), vec![9]);
    assert_eq!(get_child_processes(&table, 0), vec![4]);
}

#[test]
fn a_process_without_children_has_none() {
    let table = vec![row(4, 0), row(100, 4)];
    assert_eq!(get_child_processes(&table, 100), Vec::<u32>::new());
    assert_eq!(get_child_processes(&table, 555), Vec::<u32>::new());
}

#[test]
fn an_empty_table_gives_no_children() {
    let table: Vec<ProcessEntry> = Vec::new();
    assert_eq!(get_child_processes(&table, 4), Vec::<u32>::new());
}

#[test]
fn a_pid_listed_twice_under_the_parent_is_reported_twice() {
    let table = vec![row(5, 1), row(5, 1), row(6, 2)];
    assert_eq!(get_child_processes(&table, 1), vec![5, 5]);
}

#[test]
fn the_first_live_child_is_chosen() {
    let probes = vec![child(10, false), child(11, true), child(12, true)];
    assert_eq!(first_live_child(&probes), Some(11));
    let probes = vec![child(10, true), child(11, true)];
    assert_eq!(first_live_child(&probes), Some(10));
    let probes = vec![child(10, false), child(11, false), child(12, true)];
    assert_eq!(first_live_child(&probes), Some(12));
}

#[test]
fn no_live_child_gives_none() {
    let probes = vec![child(10, false), child(11, false)];
    assert_eq!(first_live_child(&probes), None);
    assert_eq!(first_live_child(&Vec::new()), None);
}

#[test]
fn strict_policy_compares_the_owner_of_the_focused_window() {
    let none: Vec<ChildProbe> = Vec::new();
    assert!(is_window_foreground(ForegroundPolicy::Strict, 42, Some(42), true, &none));
    assert!(!is_window_foreground(ForegroundPolicy::Strict, 42, Some(43), true, &none));
    assert!(!is_window_foreground(ForegroundPolicy::Strict, 42, None, true, &none));
    let live = vec![child(43, true)];
    assert!(!is_window_foreground(ForegroundPolicy::Strict, 42, Some(43), true, &live));
}

#[test]
fn lenient_policy_accepts_a_live_process_or_a_live_child() {
    let none: Vec<ChildProbe> = Vec::new();
    assert!(is_window_foreground(ForegroundPolicy::Lenient, 42, None, true, &none));
    assert!(!is_window_foreground(ForegroundPolicy::Lenient, 42, Some(42), false, &none));
    let dead = vec![child(43, false), child(44, false)];
    assert!(!is_window_foreground(ForegroundPolicy::Lenient, 42, None, false, &dead));
    let one_live = vec![child(43, false), child(44, true)];
    assert!(is_window_foreground(ForegroundPolicy::Lenient, 42, None, false, &one_live));
}

#[test]
fn assumed_policy_is_always_foreground() {
    let none: Vec<ChildProbe> = Vec::new();
    assert!(is_window_foreground(ForegroundPolicy::Assumed, 42, None, false, &none));
    assert!(is_window_foreground(ForegroundPolicy::Assumed, 42, Some(7), true, &none));
}

#[test]
fn the_clock_reads_after_the_epoch() {
    let seconds = get_timestamp().expect("clock before the epoch");
    // 2020-01-01T00:00:00Z
    assert!(seconds > 1_577_836_800);
}

#[test]
fn a_launch_result_carries_its_fields() {
    let launched = LaunchResult {
        success: true,
        message: String::from("started"),
        process_id: Some(1234),
    };
    assert!(launched.success);
    assert_eq!(launched.message, "started");
    assert_eq!(launched.process_id, Some(1234));
    assert_eq!(launched.clone(), launched);
}

#[test]
fn a_started_launch_reports_success_and_the_process() {
    let launched = LaunchResult::started(String::from("running"), 4321);
    assert_eq!(
        launched,
        LaunchResult { success: true, message: String::from("running"), process_id: Some(4321) }
    );
}

#[test]
fn a_reading_after_the_epoch_gives_its_whole_seconds() {
    assert_eq!(seconds_since_epoch(Ok(Duration::from_secs(0))), Some(0));
    assert_eq!(seconds_since_epoch(Ok(Duration::from_secs(1_700_000_000))), Some(1_700_000_000));
    assert_eq!(seconds_since_epoch(Ok(Duration::new(5, 999_999_999))), Some(5));
    assert_eq!(seconds_since_epoch(Ok(Duration::from_millis(90_500))), Some(90));
    assert_eq!(seconds_since_epoch(Ok(Duration::from_secs(u64::MAX))), Some(u64::MAX));
}

#[test]
fn a_reading_before_the_epoch_gives_no_timestamp() {
    let later = UNIX_EPOCH + Duration::from_secs(10);
    let before = UNIX_EPOCH.duration_since(later);
    assert!(before.is_err());
    assert_eq!(seconds_since_epoch(before), None);
}

#[test]
fn a_timestamp_follows_from_the_reading_of_a_known_instant() {
    let instant = UNIX_EPOCH + Duration::new(1_577_836_800, 250_000_000);
    assert_eq!(seconds_since_epoch(instant.duration_since(UNIX_EPOCH)), Some(1_577_836_800));
}
