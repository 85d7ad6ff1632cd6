//! Replacing the primary token of a suspended process.

use vstd::prelude::*;

use crate::io_error::IoError;

verus! {

/// The information class of a process's primary token.
pub const PROCESS_ACCESS_TOKEN: u32 = 9;

/// The number of the error that stands for every refusal.
pub const STATUS_ACCESS_DENIED: i32 = -1_073_741_790;

/// What is handed over to replace a token. The thread must be null.
#[derive(Debug, Clone, Copy, PartialEq, Eq, Structural)]
pub struct ProcessAccessTokenInfo {
    pub token: usize,
    pub thread: usize,
}

/// A call of `NtSetInformationProcess`.
#[derive(Debug, Clone, Copy, PartialEq, Eq, Structural)]
pub struct SetInformationProcess {
    pub process: usize,
    pub class: u32,
    pub info: ProcessAccessTokenInfo,
    /// The size of `info` in bytes: that of two pointers.
    pub length: u32,
}

/// The call that makes `token` the primary token of `process`.
pub open spec fn token_call(process: usize, token: usize) -> SetInformationProcess {
    SetInformationProcess {
        process,
        class: PROCESS_ACCESS_TOKEN,
        info: ProcessAccessTokenInfo { token, thread: 0 },
        length: (2 * (usize::BITS / 8)) as u32,
    }
}

/// What a status of the call makes of the whole: a negative one is a refusal.
pub open spec fn token_outcome(status: i32) -> Result<(), IoError> {
    if status < 0 {
        Err(IoError::Os(STATUS_ACCESS_DENIED))
    } else {
        Ok(())
    }
}

/// The call that makes `token` the primary token of `process`. It must be made before any
/// thread of the process has been resumed.
pub fn set_process_token(process: usize, token: usize) -> (call: SetInformationProcess)
    ensures
        call == token_call(process, token),
        call.process == process,
        call.class == 9,
        call.info.token == token,
        call.info.thread == 0,
        call.length == 2 * (usize::BITS / 8),
{
    SetInformationProcess {
        process,
        class: PROCESS_ACCESS_TOKEN,
        info: ProcessAccessTokenInfo { token, thread: 0 },
        length: 2 * (usize::BITS / 8),
    }
}

impl SetInformationProcess {
    /// What the call returns, from the status that Windows gave.
    pub fn outcome(&self, status: i32) -> (outcome: Result<(), IoError>)
        ensures
            outcome == token_outcome(status),
            outcome is Ok <==> status >= 0,
            status < 0 ==> (outcome matches Err(IoError::Os(code)) && code == -1_073_741_790),
    {
        if status < 0 {
            Err(IoError::Os(STATUS_ACCESS_DENIED))
        } else {
            Ok(())
        }
    }
}

/// The call hands over the very token for the very process: the token in the place of the
/// token and no thread in the place of the thread, as information that takes two pointers.
pub proof fn token_call_hands_over_the_token(
    process: usize,
    token: usize,
    call: SetInformationProcess,
)
    requires
        call_ensures(set_process_token, (process, token), call),
    ensures
        call.process == process,
        call.class == 9,
        call.info.token == token,
        call.info.thread == 0,
        call.length == 2 * (usize::BITS / 8),
        token_call(process, token) == call,
{
}

} // verus!
