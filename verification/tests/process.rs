use host_telemetry::error::{ApiError, ReadError};
use host_telemetry::process::{
    build_process, checked_pid, ProcessDetails, ProcessMemory, ProcessRecord, Reading,
};

fn details(pid: u32) -> ProcessDetails {
    ProcessDetails {
        pid,
        parent_pid: 1,
        name: String::from("sshd"),
        command_line: String::from("/usr/sbin/sshd -D"),
        resident_bytes: 4096,
        virtual_bytes: 65536,
    }
}

#[test]
fn record_shows_the_details() {
    let record = ProcessRecord::from_details(details(812));
    assert_eq!(
        record,
        ProcessRecord {
            pid: 812,
            parent_pid: 1,
            command: String::from("sshd"),
            arguments: String::from("/usr/sbin/sshd -D"),
            memory: ProcessMemory { resident: 4096, virtual_: 65536 },
        }
    );
}

#[test]
fn live_pid_gives_record_with_that_pid() {
    for pid in [0u32, 1, 812, u32::MAX] {
        let record = build_process(pid, Ok(details(pid))).unwrap();
        assert_eq!(record.pid, pid);
        assert_eq!(record.command, "sshd");
        assert_eq!(record.arguments, "/usr/sbin/sshd -D");
        assert_eq!(record.memory.resident, 4096);
        assert_eq!(record.memory.virtual_, 65536);
    }
}

#[test]
fn arguments_stay_one_string() {
    let mut d = details(5);
    d.command_line = String::from("cat  a b   c");
    assert_eq!(build_process(5, Ok(d)).unwrap().arguments, "cat  a b   c");
}

#[test]
fn missing_pid_is_not_found() {
    let reading: Reading = Err(ReadError::ProcessGone);
    assert_eq!(build_process(4_000_000, reading), Err(ApiError::NotFound));
}

#[test]
fn denied_pid_is_permission_denied() {
    assert_eq!(build_process(1, Err(ReadError::PermissionDenied)), Err(ApiError::PermissionDenied));
}

#[test]
fn unreadable_pid_is_unavailable() {
    assert_eq!(build_process(1, Err(ReadError::Unavailable)), Err(ApiError::Unavailable));
}

#[test]
fn details_of_another_pid_are_not_found() {
    assert_eq!(build_process(813, Ok(details(812))), Err(ApiError::NotFound));
}

#[test]
fn reported_pid_is_taken_as_it_is() {
    assert_eq!(checked_pid(0), Ok(0));
    assert_eq!(checked_pid(812), Ok(812));
    assert_eq!(checked_pid(4294967295), Ok(u32::MAX));
}

#[test]
fn reported_pid_out_of_range_is_no_answer() {
    assert_eq!(checked_pid(-1), Err(ReadError::Unavailable));
    assert_eq!(checked_pid(i64::MIN), Err(ReadError::Unavailable));
    assert_eq!(checked_pid(4294967296), Err(ReadError::Unavailable));
}
