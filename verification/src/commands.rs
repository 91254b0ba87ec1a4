//! The text of external commands and the errors that their failures become.

use vstd::prelude::*;
use vstd::string::*;
use crate::errors::RepairError;
use crate::text::{join, joined, views};
use crate::types::{AdvancedCommand, command_name, command_description, is_windows_command};

verus! {

/// The command line that runs `program` with `args`, as it is shown and logged:
/// the program, a space, and the arguments separated by spaces.
pub open spec fn command_line_text(program: Seq<char>, args: Seq<&str>) -> Seq<char> {
    program + " "@ + joined(views(args), " "@)
}

/// Writes the command line that runs `program` with `args`.
pub fn command_line(program: &str, args: &[&str]) -> (r: String)
    ensures
        r@ == command_line_text(program@, args@),
{
    broadcast use vstd::string::group_string_axioms;
    let mut out = program.to_string();
    out.append(" ");
    let rest = join(args, " ");
    out.append(rest.as_str());
    out
}

/// The error for a command that ran and exited with a failure status.
pub open spec fn command_failure_message(command_line: Seq<char>, stderr: Seq<char>) -> Seq<char> {
    "Command failed: "@ + command_line + "\n"@ + stderr
}

/// Builds the error for a command that exited with a failure status, from its
/// command line and what it wrote to standard error.
pub fn command_failure(command_line: &str, stderr: &str) -> (r: RepairError)
    ensures
        r matches RepairError::CommandFailed(m) && m@ == command_failure_message(command_line@, stderr@),
{
    broadcast use vstd::string::group_string_axioms;
    let mut out = "Command failed: ".to_string();
    out.append(command_line);
    out.append("\n");
    out.append(stderr);
    RepairError::CommandFailed(out)
}

/// The error for a command whose worker task could not be run.
pub open spec fn spawn_failure_message(command_line: Seq<char>, detail: Seq<char>) -> Seq<char> {
    "Task spawn failed for '"@ + command_line + "': "@ + detail
}

/// Builds the error for a command whose worker task failed, from its command
/// line and the text of the task error.
pub fn spawn_failure(command_line: &str, detail: &str) -> (r: RepairError)
    ensures
        r matches RepairError::CommandFailed(m) && m@ == spawn_failure_message(command_line@, detail@),
{
    broadcast use vstd::string::group_string_axioms;
    let mut out = "Task spawn failed for '".to_string();
    out.append(command_line);
    out.append("': ");
    out.append(detail);
    RepairError::CommandFailed(out)
}

/// The message of the error for a command that the host's family does not run.
pub open spec fn unsupported_message(windows_host: bool) -> Seq<char> {
    if windows_host {
        "Command not supported on Windows"@
    } else {
        "Command not supported on Linux"@
    }
}

/// Decides whether an advanced command can run on the host: Windows commands
/// on a Windows host, the others on any other host.
pub fn check_supported(cmd: AdvancedCommand, windows_host: bool) -> (r: Result<(), RepairError>)
    ensures
        r is Ok <==> is_windows_command(cmd) == windows_host,
        r matches Err(e) ==> e matches RepairError::CommandFailed(m) && m@ == unsupported_message(windows_host),
{
    broadcast use vstd::string::group_string_axioms;
    let is_windows = match cmd {
        AdvancedCommand::SfcScannow
        | AdvancedCommand::DismRestoreHealth
        | AdvancedCommand::ChkdskRepair
        | AdvancedCommand::BootrecFixMbr
        | AdvancedCommand::BootrecFixBoot
        | AdvancedCommand::CryptoServiceRestart
        | AdvancedCommand::StartupRepair
        | AdvancedCommand::RegistryEditor => true,
        _ => false,
    };
    if is_windows == windows_host {
        Ok(())
    } else if windows_host {
        Err(RepairError::CommandFailed("Command not supported on Windows".to_string()))
    } else {
        Err(RepairError::CommandFailed("Command not supported on Linux".to_string()))
    }
}

/// The warning shown before an advanced command runs.
pub open spec fn confirmation_warning_text(cmd: AdvancedCommand) -> Seq<char> {
    "About to execute: "@ + command_name(cmd) + "\n"@ + command_description(cmd)
}

/// Writes the warning shown before an advanced command runs: its name and
/// what it does.
pub fn confirmation_warning(cmd: AdvancedCommand) -> (r: String)
    ensures
        r@ == confirmation_warning_text(cmd),
{
    broadcast use vstd::string::group_string_axioms;
    let mut out = "About to execute: ".to_string();
    out.append(cmd.name());
    out.append("\n");
    out.append(cmd.description());
    out
}

} // verus!
