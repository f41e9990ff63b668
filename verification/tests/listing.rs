use host_telemetry::error::{ApiError, ReadError};
use host_telemetry::listing::{build_process_list, BatchPolicy, ProcessListBuilder, Step};
use host_telemetry::process::{ProcessDetails, ProcessRecord, Reading};

fn entry(pid: u32, name: &str) -> ProcessDetails {
    ProcessDetails {
        pid,
        parent_pid: 1,
        name: String::from(name),
        command_line: format!("/bin/{}", name),
        resident_bytes: 10 * pid as u64,
        virtual_bytes: 100 * pid as u64,
    }
}

fn shown(pid: u32, name: &str) -> ProcessRecord {
    ProcessRecord::from_details(entry(pid, name))
}

fn mixed() -> Vec<Reading> {
    vec![
        Ok(entry(1, "init")),
        Err(ReadError::ProcessGone),
        Ok(entry(7, "cron")),
        Err(ReadError::PermissionDenied),
        Ok(entry(9, "bash")),
    ]
}

#[test]
fn default_policy_skips() {
    assert_eq!(BatchPolicy::default(), BatchPolicy::SkipFailed);
}

#[test]
fn empty_enumeration_gives_empty_list() {
    assert_eq!(build_process_list(Vec::new(), BatchPolicy::SkipFailed), Ok(Vec::new()));
    assert_eq!(build_process_list(Vec::new(), BatchPolicy::FailFast), Ok(Vec::new()));
}

#[test]
fn all_read_gives_all_in_order() {
    let readings: Vec<Reading> = vec![Ok(entry(3, "c")), Ok(entry(1, "a")), Ok(entry(2, "b"))];
    let expected = vec![shown(3, "c"), shown(1, "a"), shown(2, "b")];
    assert_eq!(build_process_list(readings.clone(), BatchPolicy::SkipFailed), Ok(expected.clone()));
    assert_eq!(build_process_list(readings, BatchPolicy::FailFast), Ok(expected));
}

#[test]
fn skipping_leaves_failed_entries_out() {
    assert_eq!(
        build_process_list(mixed(), BatchPolicy::SkipFailed),
        Ok(vec![shown(1, "init"), shown(7, "cron"), shown(9, "bash")])
    );
}

#[test]
fn skipping_everything_gives_empty_list() {
    let readings: Vec<Reading> = vec![Err(ReadError::ProcessGone), Err(ReadError::Unavailable)];
    assert_eq!(build_process_list(readings, BatchPolicy::SkipFailed), Ok(Vec::new()));
}

#[test]
fn fail_fast_reports_the_first_failure() {
    assert_eq!(
        build_process_list(mixed(), BatchPolicy::FailFast),
        Err(ApiError::PartialFailure(ReadError::ProcessGone))
    );
    let readings: Vec<Reading> =
        vec![Ok(entry(1, "init")), Err(ReadError::PermissionDenied), Err(ReadError::ProcessGone)];
    assert_eq!(
        build_process_list(readings, BatchPolicy::FailFast),
        Err(ApiError::PartialFailure(ReadError::PermissionDenied))
    );
}

#[test]
fn builder_continues_while_skipping() {
    let mut builder = ProcessListBuilder::new(BatchPolicy::SkipFailed);
    assert!(!builder.is_partial());
    assert_eq!(builder.accept(Ok(entry(1, "init"))), Step::Continue);
    assert!(!builder.is_partial());
    assert_eq!(builder.accept(Err(ReadError::ProcessGone)), Step::Continue);
    assert!(builder.is_partial());
    assert_eq!(builder.accept(Ok(entry(2, "sh"))), Step::Continue);
    assert_eq!(builder.finish(), Ok(vec![shown(1, "init"), shown(2, "sh")]));
}

#[test]
fn builder_stops_at_first_failure() {
    let mut builder = ProcessListBuilder::new(BatchPolicy::FailFast);
    assert_eq!(builder.accept(Ok(entry(1, "init"))), Step::Continue);
    assert_eq!(builder.accept(Err(ReadError::Unavailable)), Step::Stop);
    assert!(!builder.is_partial());
    assert_eq!(builder.finish(), Err(ApiError::PartialFailure(ReadError::Unavailable)));
}

#[test]
fn stopped_builder_takes_nothing_more() {
    let mut builder = ProcessListBuilder::new(BatchPolicy::FailFast);
    assert_eq!(builder.accept(Err(ReadError::ProcessGone)), Step::Stop);
    assert_eq!(builder.accept(Ok(entry(1, "init"))), Step::Stop);
    assert_eq!(builder.accept(Err(ReadError::PermissionDenied)), Step::Stop);
    assert_eq!(builder.finish(), Err(ApiError::PartialFailure(ReadError::ProcessGone)));
}

#[test]
fn builder_agrees_with_whole_list() {
    for policy in [BatchPolicy::SkipFailed, BatchPolicy::FailFast] {
        let mut builder = ProcessListBuilder::new(policy);
        for reading in mixed() {
            if builder.accept(reading) == Step::Stop {
                break;
            }
        }
        assert_eq!(builder.finish(), build_process_list(mixed(), policy));
    }
}

#[test]
fn list_is_never_longer_than_enumeration() {
    let list = build_process_list(mixed(), BatchPolicy::SkipFailed).unwrap();
    assert!(list.len() <= mixed().len());
    assert_eq!(list.len(), 3);
}
