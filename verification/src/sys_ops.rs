//! The privilege gate and the host identity operation: one effective-identity
//! query, and one rename command per OS family, each with an exact argument
//! shape.

use vstd::prelude::*;
use vstd::string::StringExecFns;
use crate::command::{run_invocation, Invocation, InvocationModel, OperationError};

verus! {

/// Relies on nix::unistd::geteuid and nix::unistd::Uid::is_root: true exactly
/// when the effective user id of the running process is root (zero). This is
/// the unix probe; the Windows counterpart — querying the session's
/// administrative rights — is platform-conditional code and lives outside the
/// verified library.
#[verifier::external_body]
pub(crate) fn is_running_as_root() -> bool {
    nix::unistd::geteuid().is_root()
}

/// The OS families whose rename mechanisms this library knows. The verified
/// code never detects the platform itself; which family's command a build
/// actually dispatches is fixed outside the library.
#[derive(Debug, Clone, Copy, PartialEq, Eq, Structural)]
pub enum Platform {
    Linux,
    MacOs,
    Windows,
}

/// The exact rename command of each OS family, applied to the new name.
pub open spec fn spec_rename_invocation(platform: Platform, new_name: Seq<char>) -> InvocationModel {
    match platform {
        Platform::Linux => InvocationModel {
            program: "hostnamectl"@,
            args: seq!["set-hostname"@, new_name],
        },
        Platform::MacOs => InvocationModel {
            program: "scutil"@,
            args: seq!["--set"@, "ComputerName"@, new_name],
        },
        Platform::Windows => InvocationModel {
            program: "powershell"@,
            args: seq![
                "-Command"@,
                "Rename-Computer -NewName '"@ + new_name + "' -Force"@,
            ],
        },
    }
}

/// Builds the rename command of one OS family.
pub fn rename_invocation(platform: Platform, new_name: &str) -> (invocation: Invocation)
    ensures
        invocation@ == spec_rename_invocation(platform, new_name@),
{
    let invocation = match platform {
        Platform::Linux => Invocation {
            program: String::from_str("hostnamectl"),
            args: vec![String::from_str("set-hostname"), String::from_str(new_name)],
        },
        Platform::MacOs => Invocation {
            program: String::from_str("scutil"),
            args: vec![
                String::from_str("--set"),
                String::from_str("ComputerName"),
                String::from_str(new_name),
            ],
        },
        Platform::Windows => Invocation {
            program: String::from_str("powershell"),
            args: vec![
                String::from_str("-Command"),
                String::from_str("Rename-Computer -NewName '").concat(new_name).concat(
                    "' -Force",
                ),
            ],
        },
    };
    proof {
        assert(invocation@.args =~= spec_rename_invocation(platform, new_name@).args);
        assert(invocation@ =~= spec_rename_invocation(platform, new_name@));
    }
    invocation
}

/// Runs one OS family's rename command; any failure is a rename failure.
fn rename_with(platform: Platform, new_name: &str) -> (result: Result<(), OperationError>)
    ensures
        result matches Err(e) ==> e matches OperationError::RenameFailed(_),
{
    match run_invocation(&rename_invocation(platform, new_name)) {
        Ok(()) => Ok(()),
        Err(detail) => Err(OperationError::RenameFailed(detail)),
    }
}

/// Renames the host through the Linux mechanism (hostnamectl).
pub fn rename_computer_linux(new_name: &str) -> (result: Result<(), OperationError>)
    ensures
        result matches Err(e) ==> e matches OperationError::RenameFailed(_),
{
    rename_with(Platform::Linux, new_name)
}

/// Renames the host through the macOS mechanism (scutil).
pub fn rename_computer_macos(new_name: &str) -> (result: Result<(), OperationError>)
    ensures
        result matches Err(e) ==> e matches OperationError::RenameFailed(_),
{
    rename_with(Platform::MacOs, new_name)
}

/// Renames the host through the Windows mechanism (powershell).
pub fn rename_computer_windows(new_name: &str) -> (result: Result<(), OperationError>)
    ensures
        result matches Err(e) ==> e matches OperationError::RenameFailed(_),
{
    rename_with(Platform::Windows, new_name)
}

/// Applies the new host name. The privilege gate is re-checked here even
/// though the orchestrator checks it first: the rename is irreversible and
/// externally visible. Success is solely the rename command's exit status
/// zero; this build dispatches the Linux family's command.
pub fn rename_computer(new_name: &str) -> (result: Result<(), OperationError>)
    ensures
        result matches Err(e) ==> e matches OperationError::RenameFailed(_),
{
    if !is_running_as_root() {
        return Err(OperationError::RenameFailed(String::from_str(
            "This operation requires root or administrative privileges.",
        )));
    }
    rename_computer_linux(new_name)
}

} // verus!
