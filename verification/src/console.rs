//! The console driver adapter: writes text to the kernel's console in chunks
//! of at most one allow-buffer.
//!
//! Each chunk is granted to the kernel, a write-done callback is subscribed,
//! the write command is issued, and both registrations are released again —
//! in this kernel model the write completes with the command itself, so the
//! completion wait collapses into the same flush.  A failing step releases
//! whatever it had already acquired before surfacing the error.

use vstd::prelude::*;

use crate::callback::SubscribableCallback;
use crate::kernel::{
    allow_observed, allow_revoke_observed, command_observed, forget_observed, pending_code,
    subscribe_observed, Kernel, KernelModel,
};
use crate::result::{AllowError, CommandError, SubscribeError, TockError, TockResult};
use crate::syscalls;

verus! {

pub const DRIVER_NUMBER: usize = 1;

pub const COMMAND_WRITE: usize = 1;

pub const SUBSCRIBE_WRITE_DONE: usize = 1;

pub const ALLOW_SHARE_BUFFER: usize = 1;

/// The most bytes one flush hands to the kernel.
pub const CHUNK_SIZE: usize = 64;

/// The write-completion flag the console subscribes for each flush: any
/// delivery on it marks the pending write done.
pub struct WriteCompleteFlag {
    pub is_written: bool,
}

impl SubscribableCallback for WriteCompleteFlag {
    /// Whatever the delivery's arguments, the flag is set.
    open spec fn on_event(pre: Self, arg1: usize, arg2: usize, arg3: usize) -> Self {
        WriteCompleteFlag { is_written: true }
    }

    fn call_rust(&mut self, arg1: usize, arg2: usize, arg3: usize) {
        self.is_written = true;
    }
}

/// How many bytes the next chunk of a write with `remaining` bytes left
/// holds.
pub open spec fn chunk_size(remaining: nat) -> nat {
    if remaining > CHUNK_SIZE {
        CHUNK_SIZE as nat
    } else {
        remaining
    }
}

/// One flush of `chunk`: the kernel state it leaves behind and its result.
///
/// A flush grants the chunk, subscribes the write-done flag, issues the write
/// command, and releases the subscription and the grant again; the kernel's
/// pending codes decide at which step it fails, and a failing step releases
/// what was already acquired before its error is surfaced.
pub open spec fn flush_transition(k: KernelModel, chunk: Seq<u8>) -> (KernelModel, TockResult<()>) {
    let c0 = pending_code(k);
    let k1 = allow_observed(k, DRIVER_NUMBER, ALLOW_SHARE_BUFFER, chunk);
    if c0 != 0 {
        (
            k1,
            Err(
                TockError::Allow(
                    AllowError {
                        driver_number: DRIVER_NUMBER,
                        allow_number: ALLOW_SHARE_BUFFER,
                        return_code: c0,
                    },
                ),
            ),
        )
    } else {
        let c1 = pending_code(k1);
        let k2 = subscribe_observed(k1, DRIVER_NUMBER, SUBSCRIBE_WRITE_DONE);
        if c1 != 0 {
            (
                allow_revoke_observed(k2, DRIVER_NUMBER, ALLOW_SHARE_BUFFER),
                Err(
                    TockError::Subscribe(
                        SubscribeError {
                            driver_number: DRIVER_NUMBER,
                            subscribe_number: SUBSCRIBE_WRITE_DONE,
                            return_code: c1,
                        },
                    ),
                ),
            )
        } else {
            let c2 = pending_code(k2);
            let k3 = command_observed(k2, DRIVER_NUMBER, COMMAND_WRITE, chunk.len() as usize, 0);
            let k4 = allow_revoke_observed(
                forget_observed(k3, DRIVER_NUMBER, SUBSCRIBE_WRITE_DONE),
                DRIVER_NUMBER,
                ALLOW_SHARE_BUFFER,
            );
            if c2 < 0 {
                (
                    k4,
                    Err(
                        TockError::Command(
                            CommandError {
                                driver_number: DRIVER_NUMBER,
                                command_number: COMMAND_WRITE,
                                arg1: chunk.len() as usize,
                                arg2: 0,
                                return_code: c2,
                            },
                        ),
                    ),
                )
            } else {
                (k4, Ok(()))
            }
        }
    }
}

/// A whole write of `text`: the kernel state it leaves behind and its result.
/// The text is flushed front to back in chunks of at most [`CHUNK_SIZE`]
/// bytes; the first failing flush ends the write with its error.
pub open spec fn write_transition(k: KernelModel, text: Seq<u8>) -> (KernelModel, TockResult<()>)
    decreases text.len(),
{
    if text.len() == 0 {
        (k, Ok(()))
    } else {
        let n = chunk_size(text.len()) as int;
        let step = flush_transition(k, text.take(n));
        if step.1 is Ok {
            write_transition(step.0, text.skip(n))
        } else {
            step
        }
    }
}

/// Makes the console.
pub struct ConsoleDriver;

impl ConsoleDriver {
    pub fn create_console(self) -> (console: Console) {
        Console {}
    }
}

/// Writes text to the kernel console, one granted chunk at a time.
pub struct Console {}

impl Console {
    /// Writes `text`: front to back, in chunks of at most [`CHUNK_SIZE`]
    /// bytes, each granted, written and released as [`flush_transition`]
    /// says; the first rejected step ends the write with its error.  With an
    /// all-success kernel the whole text is handed over and the write
    /// returns unit.
    #[verifier::loop_isolation(false)]
    pub fn write(&mut self, kernel: &mut Kernel, text: &[u8]) -> (r: TockResult<()>)
        ensures
            final(kernel)@ == write_transition(old(kernel)@, text@).0,
            r == write_transition(old(kernel)@, text@).1,
    {
        let ghost k0 = kernel@;
        proof {
            assert(text@.skip(0) =~= text@);
        }
        let mut offset: usize = 0;
        while offset < text.len()
            invariant
                offset <= text@.len(),
                write_transition(k0, text@) == write_transition(
                    kernel@,
                    text@.skip(offset as int),
                ),
            decreases text@.len() - offset,
        {
            let n: usize = if text.len() - offset > CHUNK_SIZE {
                CHUNK_SIZE
            } else {
                text.len() - offset
            };
            let mut chunk: Vec<u8> = Vec::new();
            proof {
                assert(chunk@ =~= text@.subrange(offset as int, offset as int));
            }
            let mut i: usize = 0;
            while i < n
                invariant
                    i <= n,
                    offset + n <= text@.len(),
                    chunk@.len() == i,
                    chunk@ == text@.subrange(offset as int, offset + i),
                decreases n - i,
            {
                chunk.push(text[offset + i]);
                proof {
                    assert(chunk@ =~= text@.subrange(offset as int, offset + i + 1));
                }
                i = i + 1;
            }
            proof {
                assert(chunk@ =~= text@.skip(offset as int).take(n as int));
                assert(text@.skip(offset as int).len() == text@.len() - offset);
                assert(n as nat == chunk_size(text@.skip(offset as int).len()));
            }
            let ghost k_before = kernel@;
            let ghost s = text@.skip(offset as int);
            let ghost chunk_view = chunk@;
            match flush(kernel, chunk) {
                Ok(()) => {
                    proof {
                        let step = flush_transition(k_before, s.take(chunk_size(s.len()) as int));
                        assert(s.take(chunk_size(s.len()) as int) == chunk_view);
                        assert(step == flush_transition(k_before, chunk_view));
                        assert(step.1 is Ok);
                        assert(write_transition(k_before, s) == write_transition(step.0, s.skip(n as int)));
                        assert(s.skip(n as int) =~= text@.skip(offset + n));
                    }
                    offset = offset + n;
                },
                Err(e) => {
                    proof {
                        let step = flush_transition(k_before, s.take(chunk_size(s.len()) as int));
                        assert(s.take(chunk_size(s.len()) as int) == chunk_view);
                        assert(step == flush_transition(k_before, chunk_view));
                        assert(!(step.1 is Ok));
                        assert(write_transition(k_before, s) == step);
                    }
                    return Err(e);
                },
            }
        }
        proof {
            assert(text@.skip(offset as int) =~= Seq::<u8>::empty());
            assert(write_transition(kernel@, text@.skip(offset as int)) == (
                kernel@,
                Ok::<(), TockError>(()),
            ));
        }
        Ok(())
    }
}

/// One flush: grants `chunk`, subscribes the write-done flag, issues the
/// write command, and releases the subscription and the grant again.
fn flush(kernel: &mut Kernel, chunk: Vec<u8>) -> (r: TockResult<()>)
    ensures
        final(kernel)@ == flush_transition(old(kernel)@, chunk@).0,
        r == flush_transition(old(kernel)@, chunk@).1,
{
    let num_bytes_to_print = chunk.len();
    let shared_memory = match syscalls::allow(kernel, DRIVER_NUMBER, ALLOW_SHARE_BUFFER, chunk) {
        Ok(memory) => memory,
        Err(e) => {
            return Err(TockError::Allow(e));
        },
    };
    let mut is_written = WriteCompleteFlag { is_written: false };
    let subscription = match syscalls::subscribe(
        kernel,
        DRIVER_NUMBER,
        SUBSCRIBE_WRITE_DONE,
        &mut is_written,
    ) {
        Ok(subscription) => subscription,
        Err(e) => {
            let _ = shared_memory.release(kernel);
            return Err(TockError::Subscribe(e));
        },
    };
    let write_result = syscalls::command(kernel, DRIVER_NUMBER, COMMAND_WRITE, num_bytes_to_print, 0);
    subscription.release(kernel);
    let _ = shared_memory.release(kernel);
    match write_result {
        Ok(_) => Ok(()),
        Err(e) => Err(TockError::Command(e)),
    }
}

} // verus!
