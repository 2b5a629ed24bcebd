//! The isolated compilation service (composd): the decisions it makes around
//! starting a CompOS instance and running odrefresh in it.

use vstd::prelude::*;

use crate::binder_status::{
    is_service_specific, new_binder_service_specific_error, ServiceError,
};

verus! {

/// The exit codes of odrefresh.
#[derive(Clone, Copy, Debug, PartialEq, Eq, Structural)]
pub enum ExitCode {
    Okay,
    CompilationRequired,
    CompilationSuccess,
    CompilationFailed,
    CleanupFailed,
}

impl ExitCode {
    /// The exit code that odrefresh's process status `code` stands for.
    pub fn from_raw(code: i8) -> (r: Option<ExitCode>)
        ensures
            code == 0 ==> r == Some(ExitCode::Okay),
            code == 80 ==> r == Some(ExitCode::CompilationRequired),
            code == 81 ==> r == Some(ExitCode::CompilationSuccess),
            code == 82 ==> r == Some(ExitCode::CompilationFailed),
            code == 83 ==> r == Some(ExitCode::CleanupFailed),
            (code != 0 && !(80 <= code <= 83)) ==> r is None,
    {
        match code {
            0 => Some(ExitCode::Okay),
            80 => Some(ExitCode::CompilationRequired),
            81 => Some(ExitCode::CompilationSuccess),
            82 => Some(ExitCode::CompilationFailed),
            83 => Some(ExitCode::CleanupFailed),
            _ => None,
        }
    }
}

/// Why a forced compilation failed after odrefresh ran.
#[derive(Clone, Copy, Debug, PartialEq, Eq, Structural)]
pub enum ForcedCompileError {
    /// odrefresh ended with an exit code other than a successful compilation.
    UnexpectedOdrefreshResult(ExitCode),
}

/// The service, holding the manager of the CompOS instances it starts.
#[derive(Debug)]
pub struct IsolatedCompilationService<M> {
    instance_manager: M,
}

impl<M> IsolatedCompilationService<M> {
    pub fn new(instance_manager: M) -> (s: Self)
        ensures
            s.manager() == instance_manager,
    {
        IsolatedCompilationService { instance_manager }
    }

    pub closed spec fn manager(&self) -> M {
        self.instance_manager
    }

    /// The manager of the CompOS instances.
    pub fn instance_manager(&self) -> (m: &M)
        ensures
            *m == self.manager(),
    {
        &self.instance_manager
    }

    /// The end of a forced test compilation, once odrefresh has run in a
    /// started instance: it succeeded exactly when odrefresh reports a
    /// successful compilation.
    pub fn do_run_forced_compile_for_test(&self, exit_code: ExitCode) -> (r: Result<
        (),
        ForcedCompileError,
    >)
        ensures
            exit_code == ExitCode::CompilationSuccess ==> r is Ok,
            exit_code != ExitCode::CompilationSuccess ==> r == Err::<(), ForcedCompileError>(
                ForcedCompileError::UnexpectedOdrefreshResult(exit_code),
            ),
    {
        if exit_code != ExitCode::CompilationSuccess {
            return Err(ForcedCompileError::UnexpectedOdrefreshResult(exit_code));
        }
        Ok(())
    }

    /// The answer to the binary compile request, which the service does not
    /// offer yet.
    pub fn compile(&self) -> (r: Result<i8, ServiceError>)
        ensures
            r matches Err(e) && is_service_specific(e, -1, "Not yet implemented"@),
    {
        Err(new_binder_service_specific_error(-1, String::from_str("Not yet implemented")))
    }
}

/// The answer to a request, from the outcome of its handling: the value, or
/// a service-specific error -1 carrying the error's description.
pub fn to_binder_result<T>(result: Result<T, String>) -> (r: Result<T, ServiceError>)
    ensures
        result matches Ok(v) ==> r == Ok::<T, ServiceError>(v),
        result matches Err(m) ==> (r matches Err(e) && is_service_specific(e, -1, m@)),
{
    match result {
        Ok(v) => Ok(v),
        Err(m) => Err(new_binder_service_specific_error(-1, m)),
    }
}

} // verus!
