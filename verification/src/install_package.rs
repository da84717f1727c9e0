//! The package backend registry: a closed set of package-manager flavors, the
//! exact install command each one runs for a package, and the registry's
//! single install entry point.

use vstd::prelude::*;
use vstd::string::StringExecFns;
use crate::command::{run_invocation, Invocation, InvocationModel, OperationError};

verus! {

/// The closed set of recognized package-manager backends.
#[derive(Debug, Clone, Copy, PartialEq, Eq, Structural)]
pub enum Backend {
    Apt,
    Dnf,
    Pacman,
    Homebrew,
    Winget,
}

/// The backend a package-manager name denotes, if the name is recognized.
pub open spec fn spec_backend_of(name: Seq<char>) -> Option<Backend> {
    if name == "apt"@ {
        Some(Backend::Apt)
    } else if name == "dnf"@ {
        Some(Backend::Dnf)
    } else if name == "pacman"@ {
        Some(Backend::Pacman)
    } else if name == "homebrew"@ {
        Some(Backend::Homebrew)
    } else if name == "winget"@ {
        Some(Backend::Winget)
    } else {
        None
    }
}

/// Resolves a package-manager name against the closed backend set.
pub fn backend_of(name: &str) -> (backend: Option<Backend>)
    ensures
        backend == spec_backend_of(name@),
{
    if crate::config::str_eq(name, "apt") {
        Some(Backend::Apt)
    } else if crate::config::str_eq(name, "dnf") {
        Some(Backend::Dnf)
    } else if crate::config::str_eq(name, "pacman") {
        Some(Backend::Pacman)
    } else if crate::config::str_eq(name, "homebrew") {
        Some(Backend::Homebrew)
    } else if crate::config::str_eq(name, "winget") {
        Some(Backend::Winget)
    } else {
        None
    }
}

/// The exact command each backend runs to install one package,
/// non-interactive flags included where the backend has them.
pub open spec fn spec_install_invocation(backend: Backend, package: Seq<char>) -> InvocationModel {
    match backend {
        Backend::Apt => InvocationModel {
            program: "sudo"@,
            args: seq!["apt-get"@, "install"@, "-y"@, package],
        },
        Backend::Dnf => InvocationModel {
            program: "sudo"@,
            args: seq!["dnf"@, "install"@, "-y"@, package],
        },
        Backend::Pacman => InvocationModel {
            program: "sudo"@,
            args: seq!["pacman"@, "-S"@, "--noconfirm"@, package],
        },
        Backend::Homebrew => InvocationModel { program: "brew"@, args: seq!["install"@, package] },
        Backend::Winget => InvocationModel {
            program: "winget"@,
            args: seq!["install"@, package],
        },
    }
}

/// Builds one backend's install command for one package.
pub fn install_invocation(backend: Backend, package: &str) -> (invocation: Invocation)
    ensures
        invocation@ == spec_install_invocation(backend, package@),
{
    let invocation = match backend {
        Backend::Apt => Invocation {
            program: String::from_str("sudo"),
            args: vec![
                String::from_str("apt-get"),
                String::from_str("install"),
                String::from_str("-y"),
                String::from_str(package),
            ],
        },
        Backend::Dnf => Invocation {
            program: String::from_str("sudo"),
            args: vec![
                String::from_str("dnf"),
                String::from_str("install"),
                String::from_str("-y"),
                String::from_str(package),
            ],
        },
        Backend::Pacman => Invocation {
            program: String::from_str("sudo"),
            args: vec![
                String::from_str("pacman"),
                String::from_str("-S"),
                String::from_str("--noconfirm"),
                String::from_str(package),
            ],
        },
        Backend::Homebrew => Invocation {
            program: String::from_str("brew"),
            args: vec![String::from_str("install"), String::from_str(package)],
        },
        Backend::Winget => Invocation {
            program: String::from_str("winget"),
            args: vec![String::from_str("install"), String::from_str(package)],
        },
    };
    proof {
        assert(invocation@.args =~= spec_install_invocation(backend, package@).args);
        assert(invocation@ =~= spec_install_invocation(backend, package@));
    }
    invocation
}

/// Installs one package with apt; success is the command's exit status zero.
pub fn install_package_with_apt(package: &str) -> Result<(), String> {
    run_invocation(&install_invocation(Backend::Apt, package))
}

/// Installs one package with dnf; success is the command's exit status zero.
pub fn install_package_with_dnf(package: &str) -> Result<(), String> {
    run_invocation(&install_invocation(Backend::Dnf, package))
}

/// Installs one package with pacman; success is the command's exit status zero.
pub fn install_package_with_pacman(package: &str) -> Result<(), String> {
    run_invocation(&install_invocation(Backend::Pacman, package))
}

/// Installs one package with winget; success is the command's exit status zero.
pub fn install_package_with_winget(package: &str) -> Result<(), String> {
    run_invocation(&install_invocation(Backend::Winget, package))
}

/// Installs one package with homebrew; success is the command's exit status zero.
pub fn install_package_with_homebrew(package: &str) -> Result<(), String> {
    run_invocation(&install_invocation(Backend::Homebrew, package))
}

/// The registry's install entry point. Calling it with an unrecognized
/// backend name is a caller contract violation, so the name is required to be
/// recognized; a failure is local to this one package and carries its name.
pub fn install(backend_name: &str, package_name: &str) -> (result: Result<(), OperationError>)
    requires
        spec_backend_of(backend_name@) is Some,
    ensures
        result matches Err(e) ==> (e matches OperationError::InstallFailed(p, _) && p@
            == package_name@),
{
    let raw = match backend_of(backend_name) {
        Some(Backend::Apt) => install_package_with_apt(package_name),
        Some(Backend::Dnf) => install_package_with_dnf(package_name),
        Some(Backend::Pacman) => install_package_with_pacman(package_name),
        Some(Backend::Homebrew) => install_package_with_homebrew(package_name),
        Some(Backend::Winget) => install_package_with_winget(package_name),
        None => {
            proof {
                assert(false);
            }
            Ok(())
        },
    };
    match raw {
        Ok(()) => Ok(()),
        Err(detail) => Err(OperationError::InstallFailed(String::from_str(package_name), detail)),
    }
}

} // verus!
