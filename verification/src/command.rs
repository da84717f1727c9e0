//! One external command invocation: a program name with its arguments, and the
//! single trusted call that runs it and reports the child's exit status.

use vstd::prelude::*;

verus! {

/// One external command: the program to start and its arguments, in order.
#[derive(Debug, Clone, PartialEq, Eq)]
pub struct Invocation {
    pub program: String,
    pub args: Vec<String>,
}

/// The mathematical content of an invocation.
#[verifier::ext_equal]
pub struct InvocationModel {
    pub program: Seq<char>,
    pub args: Seq<Seq<char>>,
}

impl View for Invocation {
    type V = InvocationModel;

    open spec fn view(&self) -> InvocationModel {
        InvocationModel { program: self.program@, args: self.args.deep_view() }
    }
}

/// Why an external operation failed: the one-shot host rename, or the install
/// of one named package.
#[derive(Debug, Clone, PartialEq, Eq)]
pub enum OperationError {
    /// The host rename command failed; the detail is operator-facing text.
    RenameFailed(String),
    /// Installing the named package failed, with operator-facing detail.
    InstallFailed(String, String),
}

/// Relies on duct::cmd and duct::Expression::run: starts the program with the
/// given arguments, waits for it to exit, and returns Ok exactly when the
/// child exited with status zero; the error text describes the non-zero
/// status, or the failure to launch the program at all.
#[verifier::external_body]
pub(crate) fn run_invocation(invocation: &Invocation) -> Result<(), String> {
    let args = invocation.args.iter().map(|arg| arg.as_str());
    match duct::cmd(invocation.program.as_str(), args).run() {
        Ok(_) => Ok(()),
        Err(error) => Err(error.to_string()),
    }
}

} // verus!
