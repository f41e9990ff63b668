use host_telemetry::action::{
    decimal_string, error_code_of_exit, start_plan, start_result, terminate_plan,
    terminate_result, ActionResult, ActionStatus, EnvVar, LaunchPlan, StartRequest, StartResult,
};
use host_telemetry::error::ApiError;

#[test]
fn decimal_of_small_and_large_numbers() {
    assert_eq!(decimal_string(0), "0");
    assert_eq!(decimal_string(7), "7");
    assert_eq!(decimal_string(10), "10");
    assert_eq!(decimal_string(407), "407");
    assert_eq!(decimal_string(1_000_000), "1000000");
    assert_eq!(decimal_string(u32::MAX), "4294967295");
}

#[test]
fn decimal_agrees_with_std() {
    for n in [1u32, 9, 11, 99, 100, 101, 65535, 65536, 123456789, 4294967294] {
        assert_eq!(decimal_string(n), n.to_string());
        assert_eq!(decimal_string(n).parse::<u32>(), Ok(n));
    }
}

#[test]
fn terminate_plan_is_kill_dash_nine() {
    let plan = terminate_plan(4242).unwrap();
    assert_eq!(
        plan,
        LaunchPlan {
            program: String::from("kill"),
            arguments: vec![String::from("-9"), String::from("4242")],
            environment: Vec::new(),
        }
    );
}

#[test]
fn terminate_plan_at_the_ends_of_the_range() {
    assert_eq!(terminate_plan(1).unwrap().arguments, vec!["-9", "1"]);
    assert_eq!(terminate_plan(2147483647).unwrap().arguments, vec!["-9", "2147483647"]);
}

#[test]
fn no_plan_for_what_names_no_process() {
    let refused = ActionResult { status: ActionStatus::Failed, error_code: 1 };
    assert_eq!(terminate_plan(0), Err(refused));
    assert_eq!(terminate_plan(2147483648), Err(refused));
    assert_eq!(terminate_plan(u32::MAX), Err(refused));
}

#[test]
fn start_plan_keeps_the_request() {
    let request = StartRequest {
        command: String::from("sleep"),
        arguments: vec![String::from("5"), String::from("--verbose")],
        environment: vec![EnvVar { name: String::from("LANG"), value: String::from("C") }],
    };
    let plan = start_plan(request.clone());
    assert_eq!(plan.program, request.command);
    assert_eq!(plan.arguments, request.arguments);
    assert_eq!(plan.environment, request.environment);
}

#[test]
fn status_labels() {
    assert_eq!(ActionStatus::Succeeded.label(), "ok");
    assert_eq!(ActionStatus::Failed.label(), "failed");
}

#[test]
fn exit_codes_become_error_codes() {
    assert_eq!(error_code_of_exit(Some(0)), 0);
    assert_eq!(error_code_of_exit(Some(1)), 1);
    assert_eq!(error_code_of_exit(Some(255)), 255);
    assert_eq!(error_code_of_exit(Some(i32::MAX)), 2147483647);
    assert_eq!(error_code_of_exit(Some(-1)), 1);
    assert_eq!(error_code_of_exit(Some(i32::MIN)), 2147483648);
    assert_eq!(error_code_of_exit(None), 1);
}

#[test]
fn delivered_signal_is_ok() {
    assert_eq!(
        terminate_result(Ok(Some(0))),
        Ok(ActionResult { status: ActionStatus::Succeeded, error_code: 0 })
    );
}

#[test]
fn missing_pid_gives_structured_failure() {
    let result = terminate_result(Ok(Some(1))).unwrap();
    assert_eq!(result.status, ActionStatus::Failed);
    assert_ne!(result.error_code, 0);
    assert_eq!(result.error_code, 1);
}

#[test]
fn utility_ended_by_signal_is_failure() {
    assert_eq!(
        terminate_result(Ok(None)),
        Ok(ActionResult { status: ActionStatus::Failed, error_code: 1 })
    );
}

#[test]
fn terminate_passes_os_message_through() {
    let message = String::from("No such file or directory (os error 2)");
    assert_eq!(terminate_result(Err(message.clone())), Err(ApiError::Execution(message)));
}

#[test]
fn started_process_gives_ok_with_empty_output() {
    assert_eq!(
        start_result(Ok(())),
        Ok(StartResult {
            status: ActionStatus::Succeeded,
            stdout: String::new(),
            stderr: String::new(),
            error_code: 0,
        })
    );
}

#[test]
fn start_passes_os_message_through() {
    let message = String::from("Permission denied (os error 13)");
    assert_eq!(start_result(Err(message.clone())), Err(ApiError::Execution(message)));
}
