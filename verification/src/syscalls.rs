//! The syscall gateway: the three primitive kernel operations, each a single
//! non-blocking trap, with raw numeric return codes translated into typed
//! results.
//!
//! Every operation's contract says two things exactly: how the kernel's
//! observation log grows, and — decided by the kernel's pending return code —
//! which value or which error comes back.  Blocking is layered strictly above
//! this module; nothing here suspends the caller.

use vstd::prelude::*;

use crate::callback::{CallbackSubscription, SubscribableCallback};
use crate::kernel::{
    allow_observed, command_insecure_observed, command_observed, pending_code,
    subscribe_observed, Kernel, KernelModel,
};
use crate::result::{AllowError, CommandError, SubscribeError};
use crate::shared_memory::{SharedMemory, SharedMemoryModel};

verus! {

/// What a subscribe trap on kernel state `k` returns: success exactly when
/// the pending code is zero, otherwise the error carrying that code.
pub open spec fn subscribe_outcome(
    k: KernelModel,
    driver_number: usize,
    subscribe_number: usize,
) -> Result<(), SubscribeError> {
    let code = pending_code(k);
    if code == 0 {
        Ok(())
    } else {
        Err(SubscribeError { driver_number, subscribe_number, return_code: code })
    }
}

/// What a command trap on kernel state `k` returns: the code itself when it
/// is non-negative, otherwise the error carrying it.
pub open spec fn command_outcome(
    k: KernelModel,
    driver_number: usize,
    command_number: usize,
    arg1: usize,
    arg2: usize,
) -> Result<usize, CommandError> {
    let code = pending_code(k);
    if code >= 0 {
        Ok(code as usize)
    } else {
        Err(CommandError { driver_number, command_number, arg1, arg2, return_code: code })
    }
}

/// What an allow trap on kernel state `k` returns: success exactly when the
/// pending code is zero, otherwise the error carrying that code.
pub open spec fn allow_outcome(
    k: KernelModel,
    driver_number: usize,
    allow_number: usize,
) -> Result<(), AllowError> {
    let code = pending_code(k);
    if code == 0 {
        Ok(())
    } else {
        Err(AllowError { driver_number, allow_number, return_code: code })
    }
}

/// Registers interest in the events of `(driver_number, subscribe_number)`
/// without a resolvable target; the low-level half of [`subscribe`].
pub fn subscribe_fn(
    kernel: &mut Kernel,
    driver_number: usize,
    subscribe_number: usize,
) -> (r: Result<(), SubscribeError>)
    ensures
        final(kernel)@ == subscribe_observed(old(kernel)@, driver_number, subscribe_number),
        r == subscribe_outcome(old(kernel)@, driver_number, subscribe_number),
{
    let return_code = kernel.raw_subscribe(driver_number, subscribe_number);
    if return_code == 0 {
        Ok(())
    } else {
        Err(SubscribeError { driver_number, subscribe_number, return_code })
    }
}

/// Registers `callback` so that future kernel events for this
/// driver/subscribe pair reach it through the dispatch trampoline.
///
/// On success the kernel holds a token for `callback`, and the returned
/// subscription is the obligation to make it forget that token; the caller
/// must keep `callback` alive until the subscription is released.
pub fn subscribe<CB: SubscribableCallback>(
    kernel: &mut Kernel,
    driver_number: usize,
    subscribe_number: usize,
    callback: &mut CB,
) -> (r: Result<CallbackSubscription, SubscribeError>)
    ensures
        final(kernel)@ == subscribe_observed(old(kernel)@, driver_number, subscribe_number),
        *final(callback) == *old(callback),
        match r {
            Ok(subscription) => pending_code(old(kernel)@) == 0
                && subscription.spec_driver_number() == driver_number
                && subscription.spec_subscribe_number() == subscribe_number,
            Err(e) => pending_code(old(kernel)@) != 0
                && e == (SubscribeError {
                    driver_number,
                    subscribe_number,
                    return_code: pending_code(old(kernel)@),
                }),
        },
{
    match subscribe_fn(kernel, driver_number, subscribe_number) {
        Ok(()) => Ok(CallbackSubscription::new(driver_number, subscribe_number)),
        Err(e) => Err(e),
    }
}

/// Issues a synchronous, immediate request to a driver. Success is any
/// non-negative numeric result, interpreted per command by the caller.
pub fn command(
    kernel: &mut Kernel,
    driver_number: usize,
    command_number: usize,
    arg1: usize,
    arg2: usize,
) -> (r: Result<usize, CommandError>)
    ensures
        final(kernel)@ == command_observed(old(kernel)@, driver_number, command_number, arg1, arg2),
        r == command_outcome(old(kernel)@, driver_number, command_number, arg1, arg2),
{
    let return_code = kernel.raw_command(driver_number, command_number, arg1, arg2);
    if return_code >= 0 {
        Ok(return_code as usize)
    } else {
        Err(CommandError { driver_number, command_number, arg1, arg2, return_code })
    }
}

/// A reduced-safety variant of [`command`] that writes only the first
/// argument register, leaving the second register as-is — which leaks its
/// previous contents to the driver being invoked.  It exists for the
/// low-level debug interface only and must not be used for general drivers.
pub fn command1_insecure(
    kernel: &mut Kernel,
    driver_number: usize,
    command_number: usize,
    arg: usize,
) -> (r: Result<usize, CommandError>)
    ensures
        final(kernel)@ == command_insecure_observed(old(kernel)@, driver_number, command_number, arg),
        ({
            let code = pending_code(old(kernel)@);
            if code >= 0 {
                r == Ok::<usize, CommandError>(code as usize)
            } else {
                r == Err::<usize, CommandError>(
                    CommandError {
                        driver_number,
                        command_number,
                        arg1: arg,
                        arg2: 0,
                        return_code: code,
                    },
                )
            }
        }),
{
    let return_code = kernel.raw_command1(driver_number, command_number, arg);
    if return_code >= 0 {
        Ok(return_code as usize)
    } else {
        Err(CommandError { driver_number, command_number, arg1: arg, arg2: 0, return_code })
    }
}

/// Grants the kernel read/write access to `buffer_to_share` for as long as
/// the returned handle lives.  The handle owns the buffer, so its storage
/// cannot be reused or aliased until the grant is revoked; on a rejected
/// grant the buffer's storage is reclaimed.
pub fn allow(
    kernel: &mut Kernel,
    driver_number: usize,
    allow_number: usize,
    buffer_to_share: Vec<u8>,
) -> (r: Result<SharedMemory, AllowError>)
    ensures
        final(kernel)@ == allow_observed(
            old(kernel)@,
            driver_number,
            allow_number,
            buffer_to_share@,
        ),
        match r {
            Ok(memory) => pending_code(old(kernel)@) == 0
                && memory@ == (SharedMemoryModel {
                    driver_number,
                    allow_number,
                    data: buffer_to_share@,
                }),
            Err(e) => pending_code(old(kernel)@) != 0
                && e == (AllowError {
                    driver_number,
                    allow_number,
                    return_code: pending_code(old(kernel)@),
                }),
        },
{
    let return_code = kernel.raw_allow(driver_number, allow_number, &buffer_to_share);
    if return_code == 0 {
        Ok(SharedMemory::new(driver_number, allow_number, buffer_to_share))
    } else {
        Err(AllowError { driver_number, allow_number, return_code })
    }
}

} // verus!
