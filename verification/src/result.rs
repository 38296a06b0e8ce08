//! Typed results for the three kernel traps.
//!
//! Each error carries the identifying numbers of the call that failed and the
//! raw kernel return code, so a caller can diagnose a rejection without losing
//! the low-level code.  The gateway never retries: a rejected call is surfaced
//! immediately.

use vstd::prelude::*;

verus! {

/// A rejected subscribe call.
#[derive(Copy, Clone, Debug, PartialEq, Eq, Structural)]
pub struct SubscribeError {
    pub driver_number: usize,
    pub subscribe_number: usize,
    pub return_code: isize,
}

/// A rejected command call.
#[derive(Copy, Clone, Debug, PartialEq, Eq, Structural)]
pub struct CommandError {
    pub driver_number: usize,
    pub command_number: usize,
    pub arg1: usize,
    pub arg2: usize,
    pub return_code: isize,
}

/// A rejected allow call.
#[derive(Copy, Clone, Debug, PartialEq, Eq, Structural)]
pub struct AllowError {
    pub driver_number: usize,
    pub allow_number: usize,
    pub return_code: isize,
}

/// Any rejected kernel call.
#[derive(Copy, Clone, Debug, PartialEq, Eq, Structural)]
pub enum TockError {
    Subscribe(SubscribeError),
    Command(CommandError),
    Allow(AllowError),
}

/// The result type of every fallible runtime operation.
pub type TockResult<T> = Result<T, TockError>;

/// What a program's top level hands back to the runtime's entry code.
pub trait Termination {
    fn report(self) -> i32;
}

impl Termination for TockResult<()> {
    /// The runtime exits with status zero whatever the program's outcome; a
    /// failure is signalled through drivers, not through the exit code.
    fn report(self) -> (status: i32)
        ensures
            status == 0,
    {
        0
    }
}

} // verus!
