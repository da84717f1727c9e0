use setupsmith::command::OperationError;
use setupsmith::engine::{exit_code, install_all, InstallOutcome, InstallStatus, ProvisionReport, Summary};
use setupsmith::install_package::{backend_of, install, install_invocation, Backend};
use setupsmith::sys_ops::{rename_invocation, Platform};

#[test]
fn the_backend_set_is_closed() {
    assert!(matches!(backend_of("apt"), Some(Backend::Apt)));
    assert!(matches!(backend_of("dnf"), Some(Backend::Dnf)));
    assert!(matches!(backend_of("pacman"), Some(Backend::Pacman)));
    assert!(matches!(backend_of("homebrew"), Some(Backend::Homebrew)));
    assert!(matches!(backend_of("winget"), Some(Backend::Winget)));
    assert!(backend_of("choco").is_none());
    assert!(backend_of("APT").is_none());
    assert!(backend_of("").is_none());
}

#[test]
fn apt_install_command_shape() {
    let invocation = install_invocation(Backend::Apt, "curl");
    assert_eq!(invocation.program, "sudo");
    assert_eq!(invocation.args, vec!["apt-get", "install", "-y", "curl"]);
}

#[test]
fn dnf_install_command_shape() {
    let invocation = install_invocation(Backend::Dnf, "curl");
    assert_eq!(invocation.program, "sudo");
    assert_eq!(invocation.args, vec!["dnf", "install", "-y", "curl"]);
}

#[test]
fn pacman_install_command_shape() {
    let invocation = install_invocation(Backend::Pacman, "curl");
    assert_eq!(invocation.program, "sudo");
    assert_eq!(invocation.args, vec!["pacman", "-S", "--noconfirm", "curl"]);
}

#[test]
fn homebrew_install_command_shape() {
    let invocation = install_invocation(Backend::Homebrew, "curl");
    assert_eq!(invocation.program, "brew");
    assert_eq!(invocation.args, vec!["install", "curl"]);
}

#[test]
fn winget_install_command_shape() {
    let invocation = install_invocation(Backend::Winget, "curl");
    assert_eq!(invocation.program, "winget");
    assert_eq!(invocation.args, vec!["install", "curl"]);
}

#[test]
fn rename_command_shapes() {
    let linux = rename_invocation(Platform::Linux, "vm1");
    assert_eq!(linux.program, "hostnamectl");
    assert_eq!(linux.args, vec!["set-hostname", "vm1"]);

    let macos = rename_invocation(Platform::MacOs, "vm1");
    assert_eq!(macos.program, "scutil");
    assert_eq!(macos.args, vec!["--set", "ComputerName", "vm1"]);

    let windows = rename_invocation(Platform::Windows, "vm1");
    assert_eq!(windows.program, "powershell");
    assert_eq!(
        windows.args,
        vec!["-Command", "Rename-Computer -NewName 'vm1' -Force"]
    );
}

#[test]
fn unrecognized_manager_records_no_outcome() {
    let packages = vec!["curl".to_string(), "git".to_string()];
    let outcomes = install_all("choco", &packages);
    assert!(outcomes.is_empty());
}

#[test]
fn failed_install_is_reported_for_its_package() {
    // winget is not available on this kind of host, so the attempt fails
    match install("winget", "curl") {
        Err(OperationError::InstallFailed(package, _)) => assert_eq!(package, "curl"),
        Ok(()) => panic!("winget was unexpectedly available"),
        Err(other) => panic!("wrong error kind: {:?}", other),
    }
}

#[test]
fn install_failures_do_not_halt_the_loop() {
    let packages = vec!["curl".to_string(), "git".to_string()];
    let outcomes = install_all("winget", &packages);
    assert_eq!(outcomes.len(), 2);
    assert_eq!(outcomes[0].package_name, "curl");
    assert_eq!(outcomes[1].package_name, "git");
    assert!(matches!(outcomes[0].status, InstallStatus::Failure(_)));
    assert!(matches!(outcomes[1].status, InstallStatus::Failure(_)));
}

#[test]
fn only_a_completed_run_exits_zero() {
    let completed = ProvisionReport::Completed(Summary {
        hostname: "vm1".to_string(),
        package_manager: "apt".to_string(),
        outcomes: vec![
            InstallOutcome {
                package_name: "curl".to_string(),
                status: InstallStatus::Success,
            },
            InstallOutcome {
                package_name: "git".to_string(),
                status: InstallStatus::Failure("detail".to_string()),
            },
        ],
    });
    assert_eq!(exit_code(&completed), 0);
    assert_eq!(exit_code(&ProvisionReport::PrivilegeDenied), 1);
    assert_eq!(exit_code(&ProvisionReport::RenameFailed("detail".to_string())), 1);
}
