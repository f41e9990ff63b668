//! The two actions on the process table: ending a process and starting one.
//!
//! The library decides what is to be run and what the outcome means. Running
//! it is the caller's: a plan is run detached from the caller's standard
//! streams, and a started process is never waited for.

use vstd::prelude::*;
use crate::error::ApiError;
use crate::error::ApiErrorView;

verus! {

/// Whether an action was carried out.
#[derive(Clone, Copy, Debug, PartialEq, Eq, Structural)]
pub enum ActionStatus {
    Succeeded,
    Failed,
}

/// The outcome of ending a process.
#[derive(Clone, Copy, Debug, PartialEq, Eq, Structural)]
pub struct ActionResult {
    pub status: ActionStatus,
    /// Zero for success.
    pub error_code: u64,
}

/// The outcome of starting a process. The output of the child is discarded,
/// so both texts are empty.
#[derive(Clone, Debug, PartialEq, Eq)]
pub struct StartResult {
    pub status: ActionStatus,
    pub stdout: String,
    pub stderr: String,
    /// Zero for success.
    pub error_code: u64,
}

/// A variable to set in the environment of a new process.
#[derive(Clone, Debug, PartialEq, Eq)]
pub struct EnvVar {
    pub name: String,
    pub value: String,
}

/// A request to start a process.
#[derive(Clone, Debug, PartialEq, Eq)]
pub struct StartRequest {
    pub command: String,
    pub arguments: Vec<String>,
    pub environment: Vec<EnvVar>,
}

/// A program to run, with its arguments and the variables to add to the
/// environment that it inherits.
#[derive(Clone, Debug, PartialEq, Eq)]
pub struct LaunchPlan {
    pub program: String,
    pub arguments: Vec<String>,
    pub environment: Vec<EnvVar>,
}

/// The mathematical value of a `StartResult`.
pub struct StartResultView {
    pub status: ActionStatus,
    pub stdout: Seq<char>,
    pub stderr: Seq<char>,
    pub error_code: u64,
}

/// The mathematical value of a `LaunchPlan`, and of a `StartRequest`.
pub struct LaunchPlanView {
    pub program: Seq<char>,
    pub arguments: Seq<Seq<char>>,
    pub environment: Seq<(Seq<char>, Seq<char>)>,
}

/// The values of a list of strings, in order.
pub open spec fn texts_view(texts: Seq<String>) -> Seq<Seq<char>> {
    Seq::new(texts.len(), |i: int| texts[i]@)
}

/// The values of a list of variables, in order, each as name and value.
pub open spec fn env_view(vars: Seq<EnvVar>) -> Seq<(Seq<char>, Seq<char>)> {
    Seq::new(vars.len(), |i: int| (vars[i].name@, vars[i].value@))
}

impl View for StartResult {
    type V = StartResultView;

    open spec fn view(&self) -> StartResultView {
        StartResultView {
            status: self.status,
            stdout: self.stdout@,
            stderr: self.stderr@,
            error_code: self.error_code,
        }
    }
}

impl View for StartRequest {
    type V = LaunchPlanView;

    open spec fn view(&self) -> LaunchPlanView {
        LaunchPlanView {
            program: self.command@,
            arguments: texts_view(self.arguments@),
            environment: env_view(self.environment@),
        }
    }
}

impl View for LaunchPlan {
    type V = LaunchPlanView;

    open spec fn view(&self) -> LaunchPlanView {
        LaunchPlanView {
            program: self.program@,
            arguments: texts_view(self.arguments@),
            environment: env_view(self.environment@),
        }
    }
}

impl ActionResult {
    /// The error code is zero exactly for success.
    pub open spec fn wf(&self) -> bool {
        self.status == ActionStatus::Succeeded <==> self.error_code == 0
    }
}

impl StartResultView {
    /// The error code is zero exactly for success.
    pub open spec fn wf(&self) -> bool {
        self.status == ActionStatus::Succeeded <==> self.error_code == 0
    }
}

/// The word that names a status to a client.
pub open spec fn status_label(status: ActionStatus) -> Seq<char> {
    match status {
        ActionStatus::Succeeded => seq!['o', 'k'],
        ActionStatus::Failed => seq!['f', 'a', 'i', 'l', 'e', 'd'],
    }
}

impl ActionStatus {
    /// The word that names this status to a client.
    pub fn label(&self) -> (word: &'static str)
        ensures
            word@ == status_label(*self),
    {
        proof {
            reveal_strlit("ok");
            reveal_strlit("failed");
        }
        match self {
            ActionStatus::Succeeded => {
                assert("ok"@ =~= status_label(ActionStatus::Succeeded));
                "ok"
            },
            ActionStatus::Failed => {
                assert("failed"@ =~= status_label(ActionStatus::Failed));
                "failed"
            },
        }
    }
}

/// The decimal digit for a number below ten.
pub open spec fn digit_char(digit: nat) -> char {
    if digit == 0 {
        '0'
    } else if digit == 1 {
        '1'
    } else if digit == 2 {
        '2'
    } else if digit == 3 {
        '3'
    } else if digit == 4 {
        '4'
    } else if digit == 5 {
        '5'
    } else if digit == 6 {
        '6'
    } else if digit == 7 {
        '7'
    } else if digit == 8 {
        '8'
    } else {
        '9'
    }
}

/// The number that a decimal digit stands for, and zero for any other
/// character.
pub open spec fn digit_value(c: char) -> nat {
    if c == '1' {
        1
    } else if c == '2' {
        2
    } else if c == '3' {
        3
    } else if c == '4' {
        4
    } else if c == '5' {
        5
    } else if c == '6' {
        6
    } else if c == '7' {
        7
    } else if c == '8' {
        8
    } else if c == '9' {
        9
    } else {
        0
    }
}

/// Whether a character is a decimal digit.
pub open spec fn is_digit(c: char) -> bool {
    c == '0' || digit_value(c) != 0
}

/// A number written in decimal, without sign and without leading zeros.
pub open spec fn decimal(n: nat) -> Seq<char>
    decreases n,
{
    if n < 10 {
        seq![digit_char(n)]
    } else {
        decimal(n / 10).push(digit_char(n % 10))
    }
}

/// The number that a run of decimal digits stands for.
pub open spec fn decimal_value(digits: Seq<char>) -> nat
    decreases digits.len(),
{
    if digits.len() == 0 {
        0
    } else {
        decimal_value(digits.drop_last()) * 10 + digit_value(digits.last())
    }
}

/// What is run to end the process `pid`: the `kill` utility with the signal
/// that cannot be caught and the identifier in decimal, in the environment
/// as it is.
pub open spec fn kill_plan(pid: u32) -> LaunchPlanView {
    LaunchPlanView {
        program: seq!['k', 'i', 'l', 'l'],
        arguments: seq![seq!['-', '9'], decimal(pid as nat)],
        environment: Seq::empty(),
    }
}

/// Whether a number can be the identifier of a process to signal. Zero
/// stands for the caller's own group, and a number beyond the range of
/// identifiers would be read as a negative one, which stands for many
/// processes at once: neither names a process.
pub open spec fn names_process(pid: u32) -> bool {
    1 <= pid <= i32::MAX
}

/// The outcome of a request to end a process under an identifier that names
/// none: the failure that the `kill` utility reports for a process that does
/// not exist.
pub open spec fn no_such_process() -> ActionResult {
    ActionResult { status: ActionStatus::Failed, error_code: 1 }
}

/// The error code that stands for the exit of a utility: the magnitude of
/// its exit code, and one where it ended without any.
pub open spec fn exit_error_code(code: Option<i32>) -> u64 {
    match code {
        Some(c) => if c >= 0 {
            c as u64
        } else {
            (-c) as u64
        },
        None => 1,
    }
}

/// The outcome that the exit of the `kill` utility amounts to.
pub open spec fn delivery_result(code: Option<i32>) -> ActionResult {
    ActionResult {
        status: if code == Some(0i32) {
            ActionStatus::Succeeded
        } else {
            ActionStatus::Failed
        },
        error_code: exit_error_code(code),
    }
}

/// The answer to a request to end a process, given how running the plan
/// went: the exit code of the utility, if it has one, or the words of the
/// operating system where it could not be run at all.
pub open spec fn terminate_response(outcome: Result<Option<i32>, Seq<char>>) -> Result<
    ActionResult,
    ApiErrorView,
> {
    match outcome {
        Ok(code) => Ok(delivery_result(code)),
        Err(message) => Err(ApiErrorView::Execution(message)),
    }
}

/// The answer to a request to start a process, given whether the process was
/// created, or the words of the operating system where it was not.
pub open spec fn start_response(outcome: Result<(), Seq<char>>) -> Result<
    StartResultView,
    ApiErrorView,
> {
    match outcome {
        Ok(_) => Ok(
            StartResultView {
                status: ActionStatus::Succeeded,
                stdout: Seq::empty(),
                stderr: Seq::empty(),
                error_code: 0,
            },
        ),
        Err(message) => Err(ApiErrorView::Execution(message)),
    }
}

/// The value of how running a plan went.
pub open spec fn outcome_view<T>(outcome: Result<T, String>) -> Result<T, Seq<char>> {
    match outcome {
        Ok(value) => Ok(value),
        Err(message) => Err(message@),
    }
}

/// The value of the answer to a request to end a process.
pub open spec fn terminate_view(res: Result<ActionResult, ApiError>) -> Result<
    ActionResult,
    ApiErrorView,
> {
    match res {
        Ok(result) => Ok(result),
        Err(err) => Err(err@),
    }
}

/// The value of the answer to a request to start a process.
pub open spec fn start_view(res: Result<StartResult, ApiError>) -> Result<
    StartResultView,
    ApiErrorView,
> {
    match res {
        Ok(result) => Ok(result@),
        Err(err) => Err(err@),
    }
}

/// The decimal digit for a number below ten, as a string.
fn digit_text(digit: u32) -> (text: &'static str)
    requires
        digit < 10,
    ensures
        text@ == seq![digit_char(digit as nat)],
{
    proof {
        reveal_strlit("0");
        reveal_strlit("1");
        reveal_strlit("2");
        reveal_strlit("3");
        reveal_strlit("4");
        reveal_strlit("5");
        reveal_strlit("6");
        reveal_strlit("7");
        reveal_strlit("8");
        reveal_strlit("9");
    }
    let text = if digit == 0 {
        "0"
    } else if digit == 1 {
        "1"
    } else if digit == 2 {
        "2"
    } else if digit == 3 {
        "3"
    } else if digit == 4 {
        "4"
    } else if digit == 5 {
        "5"
    } else if digit == 6 {
        "6"
    } else if digit == 7 {
        "7"
    } else if digit == 8 {
        "8"
    } else {
        "9"
    };
    assert(text@ =~= seq![digit_char(digit as nat)]);
    text
}

/// Appends `n` in decimal to `out`.
fn push_decimal(n: u32, out: &mut String)
    ensures
        final(out)@ == old(out)@ + decimal(n as nat),
    decreases n,
{
    if n >= 10 {
        push_decimal(n / 10, out);
    }
    out.append(digit_text(n % 10));
    assert(out@ =~= old(out)@ + decimal(n as nat));
}

/// Writes `n` in decimal.
pub fn decimal_string(n: u32) -> (text: String)
    ensures
        text@ == decimal(n as nat),
{
    let mut text = String::new();
    push_decimal(n, &mut text);
    assert(text@ =~= decimal(n as nat));
    text
}

/// Plans the ending of the process `pid`. Where `pid` cannot name a process
/// nothing is to be run, and the outcome is there at once.
pub fn terminate_plan(pid: u32) -> (res: Result<LaunchPlan, ActionResult>)
    ensures
        res is Ok <==> names_process(pid),
        res matches Ok(plan) ==> plan@ == kill_plan(pid),
        res matches Err(result) ==> result == no_such_process() && result.wf()
            && result.error_code != 0,
{
    if pid == 0 || pid > 0x7fff_ffff {
        return Err(ActionResult { status: ActionStatus::Failed, error_code: 1 });
    }
    proof {
        reveal_strlit("kill");
        reveal_strlit("-9");
    }
    let program = String::from_str("kill");
    let signal = String::from_str("-9");
    assert(program@ =~= seq!['k', 'i', 'l', 'l']);
    assert(signal@ =~= seq!['-', '9']);
    let mut arguments: Vec<String> = Vec::new();
    arguments.push(signal);
    arguments.push(decimal_string(pid));
    let plan = LaunchPlan { program, arguments, environment: Vec::new() };
    assert(plan@.arguments =~= kill_plan(pid).arguments);
    assert(plan@.environment =~= kill_plan(pid).environment);
    Ok(plan)
}

/// Plans the start of a process: the command of the request with its
/// arguments, and its variables added to the environment.
pub fn start_plan(request: StartRequest) -> (plan: LaunchPlan)
    ensures
        plan@ == request@,
{
    LaunchPlan {
        program: request.command,
        arguments: request.arguments,
        environment: request.environment,
    }
}

/// Computes `exit_error_code`.
pub fn error_code_of_exit(code: Option<i32>) -> (error_code: u64)
    ensures
        error_code == exit_error_code(code),
        error_code == 0 <==> code == Some(0i32),
{
    match code {
        Some(c) => {
            if c >= 0 {
                c as u64
            } else {
                let wide: i64 = c as i64;
                (-wide) as u64
            }
        },
        None => 1,
    }
}

/// Answers a request to end a process from how running its plan went. A
/// utility that ran always gives a result, failed or not; only one that
/// could not be run gives an error, with the words of the operating system
/// unchanged.
pub fn terminate_result(outcome: Result<Option<i32>, String>) -> (res: Result<
    ActionResult,
    ApiError,
>)
    ensures
        terminate_view(res) == terminate_response(outcome_view(outcome)),
        res is Ok <==> outcome is Ok,
        res matches Ok(result) ==> result.wf(),
        (outcome matches Ok(code) && code != Some(0i32)) ==> (res matches Ok(result)
            && result.status == ActionStatus::Failed && result.error_code != 0),
        outcome matches Err(message) ==> res == Err::<ActionResult, ApiError>(
            ApiError::Execution(message),
        ),
{
    match outcome {
        Ok(code) => {
            let error_code: u64 = error_code_of_exit(code);
            let status = if error_code == 0 {
                ActionStatus::Succeeded
            } else {
                ActionStatus::Failed
            };
            Ok(ActionResult { status, error_code })
        },
        Err(message) => Err(ApiError::Execution(message)),
    }
}

/// Answers a request to start a process from whether the process was
/// created. The answer does not wait for the child and holds none of its
/// output.
pub fn start_result(outcome: Result<(), String>) -> (res: Result<StartResult, ApiError>)
    ensures
        start_view(res) == start_response(outcome_view(outcome)),
        res is Ok <==> outcome is Ok,
        res matches Ok(result) ==> result@.wf(),
        outcome matches Err(message) ==> res == Err::<StartResult, ApiError>(
            ApiError::Execution(message),
        ),
{
    match outcome {
        Ok(_) => Ok(
            StartResult {
                status: ActionStatus::Succeeded,
                stdout: String::new(),
                stderr: String::new(),
                error_code: 0,
            },
        ),
        Err(message) => Err(ApiError::Execution(message)),
    }
}

/// Whatever way the utility ended, the outcome is well formed, and it is a
/// success only for the exit code zero: every other exit, and an end without
/// a code, is a failure with an error code that is not zero.
pub proof fn lemma_failed_delivery(code: Option<i32>)
    ensures
        delivery_result(code).wf(),
        delivery_result(code).status == ActionStatus::Succeeded <==> code == Some(0i32),
        code != Some(0i32) ==> delivery_result(code).status == ActionStatus::Failed
            && delivery_result(code).error_code != 0,
        no_such_process().wf() && no_such_process().error_code != 0,
{
}

/// A request to end a process is answered with a result whenever the
/// utility ran, and with the words of the operating system, unchanged, only
/// when it could not be run.
pub proof fn lemma_terminate_response(outcome: Result<Option<i32>, Seq<char>>)
    ensures
        terminate_response(outcome) is Ok <==> outcome is Ok,
        outcome matches Err(message) ==> terminate_response(outcome) == Err::<
            ActionResult,
            ApiErrorView,
        >(ApiErrorView::Execution(message)),
{
}

/// A number written in decimal reads back as itself: it is one digit or
/// more, all of them digits, with no leading zero but for zero itself.
pub proof fn lemma_decimal_reads_back(n: nat)
    ensures
        decimal(n).len() >= 1,
        forall|i: int| 0 <= i < decimal(n).len() ==> is_digit(#[trigger] decimal(n)[i]),
        decimal_value(decimal(n)) == n,
        n > 0 ==> decimal(n)[0] != '0',
    decreases n,
{
    if n < 10 {
        assert(decimal(n).drop_last() =~= Seq::<char>::empty());
        assert(decimal_value(decimal(n).drop_last()) == 0);
    } else {
        lemma_decimal_reads_back(n / 10);
        assert(decimal(n).drop_last() =~= decimal(n / 10));
        assert(decimal(n).last() == digit_char(n % 10));
    }
}

/// Two numbers are written alike only if they are the same number.
pub proof fn lemma_decimal_tells_apart(a: nat, b: nat)
    ensures
        decimal(a) == decimal(b) <==> a == b,
{
    lemma_decimal_reads_back(a);
    lemma_decimal_reads_back(b);
}

} // verus!
