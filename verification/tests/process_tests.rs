use os_layer::commands::{open_path_or_url, run, spawn, OpenInput, RunOutput, SpawnInput};
use os_layer::platform::{
    open_system, process_result, run_shell_capture, shell_invocation, spawn_shell,
    CapturedOutput, Platform, PlatformError, ShellInvocation,
};

fn finished(code: Option<i32>, stdout: &[u8], stderr: &[u8]) -> CapturedOutput {
    CapturedOutput { code, stdout: stdout.to_vec(), stderr: stderr.to_vec() }
}

#[test]
fn windows_runs_commands_through_cmd() {
    let plan = shell_invocation(Platform::Windows, "dir /b");
    assert_eq!(
        plan,
        ShellInvocation {
            program: "cmd".to_string(),
            flag: "/C".to_string(),
            command: "dir /b".to_string(),
        }
    );
}

#[test]
fn every_other_platform_runs_commands_through_sh() {
    for platform in [Platform::Linux, Platform::MacOs, Platform::Unknown] {
        let plan = shell_invocation(platform, "ls -la | wc -l");
        assert_eq!(plan.program, "sh");
        assert_eq!(plan.flag, "-c");
        assert_eq!(plan.command, "ls -la | wc -l");
    }
}

#[test]
fn the_command_is_passed_on_as_received() {
    let command = "echo \"$HOME\"; rm -rf 'a b' && exit 3";
    assert_eq!(shell_invocation(Platform::Linux, command).command, command);
    assert_eq!(shell_invocation(Platform::Windows, command).command, command);
    assert_eq!(shell_invocation(Platform::Linux, "").command, "");
}

#[test]
fn a_spawn_input_plans_its_own_command() {
    let input = SpawnInput { command: "echo hello".to_string() };
    assert_eq!(input.invocation(Platform::MacOs), shell_invocation(Platform::MacOs, "echo hello"));
    assert_eq!(input.invocation(Platform::Windows).program, "cmd");
}

#[test]
fn a_created_process_is_a_successful_spawn() {
    assert_eq!(spawn_shell(Ok(())), Ok(()));
    assert_eq!(spawn(Ok(())), Ok(()));
}

#[test]
fn a_refused_spawn_is_an_io_failure() {
    let refused = spawn_shell(Err("permission denied".to_string()));
    assert_eq!(refused, Err(PlatformError::Io("permission denied".to_string())));
    assert_eq!(
        spawn(Err("permission denied".to_string())),
        Err("IO error: permission denied".to_string())
    );
}

#[test]
fn echo_hello_reports_code_zero_and_its_line() {
    let result = run_shell_capture(Ok(finished(Some(0), b"hello\n", b"")));
    assert_eq!(result, Ok((0, "hello\n".to_string(), String::new())));
}

#[test]
fn exit_three_reports_code_three() {
    let result = run_shell_capture(Ok(finished(Some(3), b"", b"")));
    assert_eq!(result, Ok((3, String::new(), String::new())));
}

#[test]
fn a_missing_exit_code_is_reported_as_minus_one() {
    let result = run_shell_capture(Ok(finished(None, b"partial", b"killed")));
    assert_eq!(result, Ok((-1, "partial".to_string(), "killed".to_string())));
}

#[test]
fn minus_one_and_zero_are_kept_apart() {
    let unknown = run_shell_capture(Ok(finished(None, b"", b""))).unwrap();
    let clean = run_shell_capture(Ok(finished(Some(0), b"", b""))).unwrap();
    assert_ne!(unknown.0, clean.0);
}

#[test]
fn a_negative_exit_code_is_reported_as_it_is() {
    let result = run_shell_capture(Ok(finished(Some(-7), b"", b""))).unwrap();
    assert_eq!(result.0, -7);
    let lowest = run_shell_capture(Ok(finished(Some(i32::MIN), b"", b""))).unwrap();
    assert_eq!(lowest.0, i32::MIN);
}

#[test]
fn both_streams_are_decoded_each_for_itself() {
    let result = run_shell_capture(Ok(finished(Some(1), b"out", b"err"))).unwrap();
    assert_eq!(result.1, "out");
    assert_eq!(result.2, "err");
}

#[test]
fn well_formed_text_beyond_ascii_is_decoded_exactly() {
    let text = "gr\u{fc}\u{df}e \u{4e16}\u{754c} \u{1f600}\n";
    let result = run_shell_capture(Ok(finished(Some(0), text.as_bytes(), b""))).unwrap();
    assert_eq!(result.1, text);
}

#[test]
fn ill_formed_bytes_are_replaced_and_never_fail() {
    let result = run_shell_capture(Ok(finished(Some(0), &[0x66, 0xff, 0x6f], &[0xc3]))).unwrap();
    assert_eq!(result.1, "f\u{fffd}o");
    assert_eq!(result.2, "\u{fffd}");
}

#[test]
fn a_process_that_could_not_start_gives_no_result() {
    let result = run_shell_capture(Err("No such file or directory (os error 2)".to_string()));
    assert_eq!(
        result,
        Err(PlatformError::Io("No such file or directory (os error 2)".to_string()))
    );
}

#[test]
fn process_result_keeps_the_streams_and_sets_the_sentinel() {
    assert_eq!(
        process_result(None, "a".to_string(), "b".to_string()),
        (-1, "a".to_string(), "b".to_string())
    );
    assert_eq!(
        process_result(Some(42), String::new(), "warn".to_string()),
        (42, String::new(), "warn".to_string())
    );
}

#[test]
fn run_names_the_three_fields() {
    let output = run(Ok(finished(Some(3), b"hello\n", b"oops"))).unwrap();
    assert_eq!(
        output,
        RunOutput { status: 3, stdout: "hello\n".to_string(), stderr: "oops".to_string() }
    );
}

#[test]
fn run_reports_a_failed_start_as_text() {
    assert_eq!(run(Err("not found".to_string())), Err("IO error: not found".to_string()));
}

#[test]
fn an_opened_target_is_success() {
    assert_eq!(open_system("https://example.com", Ok(())), Ok(()));
    let input = OpenInput { target: "/tmp/report.pdf".to_string() };
    assert_eq!(open_path_or_url(input, Ok(())), Ok(()));
}

#[test]
fn a_target_that_cannot_be_opened_is_named_in_the_failure() {
    let failed = open_system("https://example.com", Err("no handler".to_string()));
    assert_eq!(
        failed,
        Err(PlatformError::Msg("Failed to open 'https://example.com': no handler".to_string()))
    );
}

#[test]
fn open_path_or_url_reports_the_failure_as_text() {
    let input = OpenInput { target: "/no/such file".to_string() };
    assert_eq!(
        open_path_or_url(input, Err("exit status: 4".to_string())),
        Err("Failed to open '/no/such file': exit status: 4".to_string())
    );
}

#[test]
fn an_empty_target_still_gives_the_whole_sentence() {
    assert_eq!(
        open_system("", Err(String::new())).unwrap_err().to_string(),
        "Failed to open '': "
    );
}
