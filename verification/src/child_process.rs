//! Starting and stopping native child processes: the argument checks and the
//! interpretation of the system's result codes.
use crate::file_uri::{contains_nul, has_nul};
use vstd::prelude::*;

verus! {

/// `NCP_NO_ERROR` from `Ability_NativeChildProcess_ErrCode`.
pub const NCP_NO_ERROR: i32 = 0;

/// `NCP_ISOLATION_MODE_NORMAL`: the child shares the parent's sandbox/network.
pub const NCP_ISOLATION_MODE_NORMAL: i32 = 0;

/// Why a child-process operation failed.
#[derive(Clone, Copy, Debug, PartialEq, Eq, Structural)]
pub enum ChildProcessError {
    /// The entry holds a NUL byte.
    EntryHasNul,
    /// The entry parameters hold a NUL byte.
    ParamsHaveNul,
    /// `OH_Ability_StartNativeChildProcess` failed with this code.
    StartFailed(i32),
    /// `OH_Ability_KillChildProcess` failed with this code.
    KillFailed(i32),
    /// `OH_Ability_RegisterNativeChildProcessExitCallback` failed with this code.
    RegisterFailed(i32),
}

/// Starts a native child process that loads `entry` (`"libxxx.so:Entry"`) with the
/// space-separated argument string `entry_params`. `start` makes the system call and
/// returns its code and the child's pid; the pid is returned when the code is
/// `NCP_NO_ERROR`. Arguments holding a NUL byte are refused without a call.
pub fn spawn_native_child_process<F: FnOnce(&str, &str) -> (i32, i32)>(
    entry: &str,
    entry_params: &str,
    start: F,
) -> (r: Result<i32, ChildProcessError>)
    requires
        !has_nul(entry@) && !has_nul(entry_params@) ==> call_requires(start, (entry, entry_params)),
    ensures
        has_nul(entry@) ==> r == Err::<i32, ChildProcessError>(ChildProcessError::EntryHasNul),
        !has_nul(entry@) && has_nul(entry_params@) ==> r == Err::<i32, ChildProcessError>(
            ChildProcessError::ParamsHaveNul,
        ),
        !has_nul(entry@) && !has_nul(entry_params@) ==> exists|res: (i32, i32)|
            call_ensures(start, (entry, entry_params), res) && r == if res.0 == NCP_NO_ERROR {
                Ok::<i32, ChildProcessError>(res.1)
            } else {
                Err::<i32, ChildProcessError>(ChildProcessError::StartFailed(res.0))
            },
{
    if contains_nul(entry) {
        return Err(ChildProcessError::EntryHasNul);
    }
    if contains_nul(entry_params) {
        return Err(ChildProcessError::ParamsHaveNul);
    }
    let (code, pid) = start(entry, entry_params);
    if code != NCP_NO_ERROR {
        return Err(ChildProcessError::StartFailed(code));
    }
    Ok(pid)
}

/// Interprets the code of `OH_Ability_KillChildProcess`.
pub fn kill_result(code: i32) -> (r: Result<(), ChildProcessError>)
    ensures
        code == NCP_NO_ERROR ==> r is Ok,
        code != NCP_NO_ERROR ==> r == Err::<(), ChildProcessError>(
            ChildProcessError::KillFailed(code),
        ),
{
    if code != NCP_NO_ERROR {
        Err(ChildProcessError::KillFailed(code))
    } else {
        Ok(())
    }
}

/// Interprets the code of `OH_Ability_RegisterNativeChildProcessExitCallback`.
pub fn register_result(code: i32) -> (r: Result<(), ChildProcessError>)
    ensures
        code == NCP_NO_ERROR ==> r is Ok,
        code != NCP_NO_ERROR ==> r == Err::<(), ChildProcessError>(
            ChildProcessError::RegisterFailed(code),
        ),
{
    if code != NCP_NO_ERROR {
        Err(ChildProcessError::RegisterFailed(code))
    } else {
        Ok(())
    }
}

} // verus!
