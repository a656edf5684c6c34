use compose_tray::command::CommandResult;
use compose_tray::services::{
    check_status, start_invocation, start_services, status_invocation, stop_invocation,
    stop_services,
};

#[test]
fn start_success_payload_is_stdout() {
    let run = Ok(CommandResult {
        success: true,
        stdout: b"started\n".to_vec(),
        stderr: b"noise".to_vec(),
    });
    assert_eq!(start_services(run), Ok("started\n".to_string()));
}

#[test]
fn start_failure_payload_is_stderr() {
    let run = Ok(CommandResult {
        success: false,
        stdout: b"partial output".to_vec(),
        stderr: b"error: no compose file\n".to_vec(),
    });
    assert_eq!(start_services(run), Err("error: no compose file\n".to_string()));
}

#[test]
fn start_spawn_failure_names_os_error() {
    let run = Err("No such file or directory (os error 2)".to_string());
    assert_eq!(
        start_services(run),
        Err("Failed to execute docker compose: No such file or directory (os error 2)"
            .to_string())
    );
}

#[test]
fn stop_success_payload_is_stdout() {
    let run = Ok(CommandResult {
        success: true,
        stdout: b"stopped\n".to_vec(),
        stderr: Vec::new(),
    });
    assert_eq!(stop_services(run), Ok("stopped\n".to_string()));
}

#[test]
fn stop_failure_payload_is_stderr() {
    let run = Ok(CommandResult {
        success: false,
        stdout: Vec::new(),
        stderr: b"daemon not running\n".to_vec(),
    });
    assert_eq!(stop_services(run), Err("daemon not running\n".to_string()));
}

#[test]
fn stop_spawn_failure_names_os_error() {
    let run = Err("permission denied (os error 13)".to_string());
    assert_eq!(
        stop_services(run),
        Err("Failed to execute docker compose: permission denied (os error 13)".to_string())
    );
}

#[test]
fn status_success_payload_is_stdout() {
    let run = Ok(CommandResult {
        success: true,
        stdout: b"service_a  Up\n".to_vec(),
        stderr: Vec::new(),
    });
    assert_eq!(check_status(run), Ok("service_a  Up\n".to_string()));
}

#[test]
fn status_failing_exit_still_returns_stdout() {
    let run = Ok(CommandResult {
        success: false,
        stdout: b"service_a  Up\nservice_b  Exited (1)\n".to_vec(),
        stderr: b"exit status 1\n".to_vec(),
    });
    assert_eq!(
        check_status(run),
        Ok("service_a  Up\nservice_b  Exited (1)\n".to_string())
    );
}

#[test]
fn status_empty_stdout_is_empty_payload() {
    let run = Ok(CommandResult { success: true, stdout: Vec::new(), stderr: Vec::new() });
    assert_eq!(check_status(run), Ok(String::new()));
}

#[test]
fn status_spawn_failure_names_os_error() {
    let run = Err("No such file or directory (os error 2)".to_string());
    assert_eq!(
        check_status(run),
        Err("Failed to check status: No such file or directory (os error 2)".to_string())
    );
}

#[test]
fn status_decodes_invalid_utf8_lossily() {
    let mut stdout = vec![0xffu8, 0xfe];
    stdout.extend_from_slice(b"ok");
    let run = Ok(CommandResult { success: false, stdout, stderr: Vec::new() });
    assert_eq!(check_status(run), Ok("\u{fffd}\u{fffd}ok".to_string()));
}

#[test]
fn start_invocation_is_compose_up_detached() {
    let inv = start_invocation("/srv/stack".to_string());
    assert_eq!(inv.executable, "docker");
    assert_eq!(inv.args, vec!["compose", "up", "-d"]);
    assert_eq!(inv.working_dir, "/srv/stack");
}

#[test]
fn stop_invocation_is_compose_down() {
    let inv = stop_invocation("/srv/stack".to_string());
    assert_eq!(inv.executable, "docker");
    assert_eq!(inv.args, vec!["compose", "down"]);
    assert_eq!(inv.working_dir, "/srv/stack");
}

#[test]
fn status_invocation_is_compose_ps() {
    let inv = status_invocation("/srv/stack".to_string());
    assert_eq!(inv.executable, "docker");
    assert_eq!(inv.args, vec!["compose", "ps"]);
    assert_eq!(inv.working_dir, "/srv/stack");
}
