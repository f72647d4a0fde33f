//! One instance at a time: the named mutex that the running instance holds.

use vstd::prelude::*;

use crate::text;
use crate::text::{concat2, u64_text};

verus! {

/// The name of the mutex, visible in all sessions of the machine.
pub const MUTEX_NAME: &'static str = "Global\\ImmichSync";

/// The mutex existed before.
pub const ERROR_ALREADY_EXISTS: u32 = 183;

/// Why it cannot be told whether another instance is running.
#[derive(Debug, Clone, Copy, PartialEq, Eq, Structural)]
pub enum SingleInstanceError {
    CreateFailed(u32),
}

impl SingleInstanceError {
    /// The message shown to the user.
    pub fn message(&self) -> (r: String)
        ensures
            r@ == "failed to create named mutex: Win32 error "@ + text::decimal(
                self->CreateFailed_0 as nat,
            ),
    {
        match self {
            SingleInstanceError::CreateFailed(code) => concat2(
                "failed to create named mutex: Win32 error ",
                &u64_text(*code as u64),
            ),
        }
    }
}

/// What creating the mutex means: `true` where this is the first instance, which
/// keeps the mutex; `false` where another instance is running. `created` is the
/// last error after the mutex was created, or the code with which it was not.
pub fn acquire(created: Result<u32, u32>) -> (r: Result<bool, SingleInstanceError>)
    ensures
        r == (match created {
            Ok(last_error) => Ok(last_error != ERROR_ALREADY_EXISTS),
            Err(code) => Err::<bool, SingleInstanceError>(SingleInstanceError::CreateFailed(code)),
        }),
{
    match created {
        Ok(last_error) => Ok(last_error != ERROR_ALREADY_EXISTS),
        Err(code) => Err(SingleInstanceError::CreateFailed(code)),
    }
}

} // verus!
