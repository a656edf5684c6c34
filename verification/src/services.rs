//! The three service operations: bring the stack up, take it down, and
//! query its status. Each builds one fixed CLI invocation and translates
//! the run's outcome into a success or failure payload.

use crate::command::{CommandInvocation, CommandResult};
use crate::text::{lossy_utf8, utf8_lossy};
use vstd::prelude::*;
use vstd::string::StringExecFns;

verus! {

/// The message reported when the orchestration CLI could not be launched
/// for a start or stop operation, given the OS error description.
pub open spec fn compose_spawn_failure(detail: Seq<char>) -> Seq<char> {
    "Failed to execute docker compose: "@ + detail
}

/// The message reported when the orchestration CLI could not be launched
/// for a status query, given the OS error description.
pub open spec fn status_spawn_failure(detail: Seq<char>) -> Seq<char> {
    "Failed to check status: "@ + detail
}

/// The invocation that brings the service stack up:
/// `docker compose up -d`, run from `working_dir`.
pub fn start_invocation(working_dir: String) -> (inv: CommandInvocation)
    ensures
        inv.executable@ == "docker"@,
        inv.args@.len() == 3,
        inv.args@[0]@ == "compose"@,
        inv.args@[1]@ == "up"@,
        inv.args@[2]@ == "-d"@,
        inv.working_dir == working_dir,
{
    let mut args: Vec<String> = Vec::new();
    args.push("compose".to_owned());
    args.push("up".to_owned());
    args.push("-d".to_owned());
    CommandInvocation { executable: "docker".to_owned(), args, working_dir }
}

/// The invocation that takes the service stack down:
/// `docker compose down`, run from `working_dir`.
pub fn stop_invocation(working_dir: String) -> (inv: CommandInvocation)
    ensures
        inv.executable@ == "docker"@,
        inv.args@.len() == 2,
        inv.args@[0]@ == "compose"@,
        inv.args@[1]@ == "down"@,
        inv.working_dir == working_dir,
{
    let mut args: Vec<String> = Vec::new();
    args.push("compose".to_owned());
    args.push("down".to_owned());
    CommandInvocation { executable: "docker".to_owned(), args, working_dir }
}

/// The invocation that queries the service stack's status:
/// `docker compose ps`, run from `working_dir`.
pub fn status_invocation(working_dir: String) -> (inv: CommandInvocation)
    ensures
        inv.executable@ == "docker"@,
        inv.args@.len() == 2,
        inv.args@[0]@ == "compose"@,
        inv.args@[1]@ == "ps"@,
        inv.working_dir == working_dir,
{
    let mut args: Vec<String> = Vec::new();
    args.push("compose".to_owned());
    args.push("ps".to_owned());
    CommandInvocation { executable: "docker".to_owned(), args, working_dir }
}

/// Translates a run of the start invocation: on a successful exit the
/// payload is exactly the captured standard output; on a failing exit the
/// failure message is exactly the captured standard error; when the CLI
/// could not be launched the failure names the OS error.
pub fn start_services(run: Result<CommandResult, String>) -> (r: Result<String, String>)
    ensures
        run is Ok && run->Ok_0.success ==> r is Ok && r->Ok_0@ == lossy_utf8(run->Ok_0.stdout@),
        run is Ok && !run->Ok_0.success ==> r is Err && r->Err_0@ == lossy_utf8(
            run->Ok_0.stderr@,
        ),
        run is Err ==> r is Err && r->Err_0@ == compose_spawn_failure(run->Err_0@),
{
    match run {
        Ok(out) => if out.success {
            Ok(utf8_lossy(&out.stdout))
        } else {
            Err(utf8_lossy(&out.stderr))
        },
        Err(detail) => Err(
            "Failed to execute docker compose: ".to_owned().concat(detail.as_str()),
        ),
    }
}

/// Translates a run of the stop invocation, under the same rules as a
/// run of the start invocation.
pub fn stop_services(run: Result<CommandResult, String>) -> (r: Result<String, String>)
    ensures
        run is Ok && run->Ok_0.success ==> r is Ok && r->Ok_0@ == lossy_utf8(run->Ok_0.stdout@),
        run is Ok && !run->Ok_0.success ==> r is Err && r->Err_0@ == lossy_utf8(
            run->Ok_0.stderr@,
        ),
        run is Err ==> r is Err && r->Err_0@ == compose_spawn_failure(run->Err_0@),
{
    match run {
        Ok(out) => if out.success {
            Ok(utf8_lossy(&out.stdout))
        } else {
            Err(utf8_lossy(&out.stderr))
        },
        Err(detail) => Err(
            "Failed to execute docker compose: ".to_owned().concat(detail.as_str()),
        ),
    }
}

/// Translates a run of the status invocation. A status query is
/// informational: whatever the exit status, the payload is exactly the
/// captured standard output. Only a CLI that could not be launched at all
/// yields a failure, naming the OS error.
pub fn check_status(run: Result<CommandResult, String>) -> (r: Result<String, String>)
    ensures
        run is Ok ==> r is Ok && r->Ok_0@ == lossy_utf8(run->Ok_0.stdout@),
        run is Err ==> r is Err && r->Err_0@ == status_spawn_failure(run->Err_0@),
{
    match run {
        Ok(out) => Ok(utf8_lossy(&out.stdout)),
        Err(detail) => Err("Failed to check status: ".to_owned().concat(detail.as_str())),
    }
}

} // verus!
