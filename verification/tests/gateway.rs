//! The syscall gateway and the scoped handles, observed through the kernel
//! double's log.

use libtock::callback::{LastPair, PeekableCallbackSubscription};
use libtock::console::WriteCompleteFlag;
use libtock::kernel::{Kernel, SyscallEvent};
use libtock::result::{AllowError, CommandError, SubscribeError, Termination, TockError};
use libtock::syscalls;

fn log_of(kernel: &Kernel) -> Vec<SyscallEvent> {
    let mut events = Vec::new();
    let mut i = 0;
    while i < kernel.log_len() {
        events.push(kernel.event_at(i));
        i += 1;
    }
    events
}

#[test]
fn subscribe_then_release_is_observed_as_forget() {
    let mut kernel = Kernel::new();
    let mut flag = WriteCompleteFlag { is_written: false };
    let subscription = syscalls::subscribe(&mut kernel, 3, 0, &mut flag).unwrap();
    subscription.release(&mut kernel);
    assert_eq!(
        log_of(&kernel),
        vec![
            SyscallEvent::Subscribe { driver_number: 3, subscribe_number: 0 },
            SyscallEvent::SubscribeForget { driver_number: 3, subscribe_number: 0 },
        ]
    );
}

#[test]
fn release_is_at_most_one_forget_per_subscription() {
    let mut kernel = Kernel::new();
    let mut flag = WriteCompleteFlag { is_written: false };
    let subscription = syscalls::subscribe(&mut kernel, 9, 4, &mut flag).unwrap();
    subscription.release(&mut kernel);
    // The handle is consumed: a second release cannot even be written. The
    // log holds exactly one forget record for the grant.
    let forgets = log_of(&kernel)
        .iter()
        .filter(|e| matches!(e, SyscallEvent::SubscribeForget { .. }))
        .count();
    assert_eq!(forgets, 1);
}

#[test]
fn allow_then_release_is_observed_as_revoke_before_reuse() {
    let mut kernel = Kernel::new();
    let memory = syscalls::allow(&mut kernel, 7, 1, vec![1, 2, 3]).unwrap();
    let buffer = memory.release(&mut kernel);
    // The buffer's storage comes back only after the revoke: only now can it
    // be granted again.
    let _second = syscalls::allow(&mut kernel, 7, 2, buffer).unwrap();
    assert_eq!(
        log_of(&kernel),
        vec![
            SyscallEvent::Allow { driver_number: 7, allow_number: 1, len: 3 },
            SyscallEvent::AllowRevoke { driver_number: 7, allow_number: 1 },
            SyscallEvent::Allow { driver_number: 7, allow_number: 2, len: 3 },
        ]
    );
}

#[test]
fn release_is_at_most_one_revoke_per_grant() {
    let mut kernel = Kernel::new();
    let memory = syscalls::allow(&mut kernel, 7, 1, vec![0; 8]).unwrap();
    let _buffer = memory.release(&mut kernel);
    let revokes = log_of(&kernel)
        .iter()
        .filter(|e| matches!(e, SyscallEvent::AllowRevoke { .. }))
        .count();
    assert_eq!(revokes, 1);
}

#[test]
fn command_with_negative_code_returns_that_exact_error() {
    let mut kernel = Kernel::scripted(vec![-42]);
    let r = syscalls::command(&mut kernel, 11, 5, 77, 88);
    assert_eq!(
        r,
        Err(CommandError {
            driver_number: 11,
            command_number: 5,
            arg1: 77,
            arg2: 88,
            return_code: -42,
        })
    );
    assert_eq!(
        log_of(&kernel),
        vec![SyscallEvent::Command { driver_number: 11, command_number: 5, arg1: 77, arg2: 88 }]
    );
}

#[test]
fn command_returns_the_nonnegative_code_as_its_value() {
    let mut kernel = Kernel::scripted(vec![7]);
    assert_eq!(syscalls::command(&mut kernel, 1, 2, 3, 4), Ok(7));
    // An exhausted script answers success.
    assert_eq!(syscalls::command(&mut kernel, 1, 2, 3, 4), Ok(0));
}

#[test]
fn command1_insecure_records_one_argument_and_maps_errors() {
    let mut kernel = Kernel::scripted(vec![-9]);
    let r = syscalls::command1_insecure(&mut kernel, 8, 2, 31);
    assert_eq!(
        r,
        Err(CommandError {
            driver_number: 8,
            command_number: 2,
            arg1: 31,
            arg2: 0,
            return_code: -9,
        })
    );
    assert_eq!(
        log_of(&kernel),
        vec![SyscallEvent::CommandInsecure { driver_number: 8, command_number: 2, arg: 31 }]
    );
    let mut kernel = Kernel::new();
    assert_eq!(syscalls::command1_insecure(&mut kernel, 8, 2, 31), Ok(0));
}

#[test]
fn subscribe_with_nonzero_code_returns_that_exact_error() {
    let mut kernel = Kernel::scripted(vec![-1]);
    let mut flag = WriteCompleteFlag { is_written: false };
    let r = syscalls::subscribe(&mut kernel, 3, 0, &mut flag);
    match r {
        Err(e) => assert_eq!(
            e,
            SubscribeError { driver_number: 3, subscribe_number: 0, return_code: -1 }
        ),
        Ok(_) => panic!("a rejected subscribe must not hand out a subscription"),
    }
}

#[test]
fn subscribe_fn_maps_codes_like_subscribe() {
    let mut kernel = Kernel::scripted(vec![0, 5]);
    assert_eq!(syscalls::subscribe_fn(&mut kernel, 4, 1), Ok(()));
    assert_eq!(
        syscalls::subscribe_fn(&mut kernel, 4, 1),
        Err(SubscribeError { driver_number: 4, subscribe_number: 1, return_code: 5 })
    );
}

#[test]
fn allow_with_nonzero_code_returns_that_exact_error() {
    let mut kernel = Kernel::scripted(vec![-2]);
    let r = syscalls::allow(&mut kernel, 7, 1, vec![1, 2]);
    match r {
        Err(e) => {
            assert_eq!(e, AllowError { driver_number: 7, allow_number: 1, return_code: -2 })
        }
        Ok(_) => panic!("a rejected allow must not hand out shared memory"),
    }
    // The attempt itself was still observed.
    assert_eq!(
        log_of(&kernel),
        vec![SyscallEvent::Allow { driver_number: 7, allow_number: 1, len: 2 }]
    );
}

#[test]
fn shared_memory_copies_in_and_out_while_the_grant_lives() {
    let mut kernel = Kernel::new();
    let mut memory = syscalls::allow(&mut kernel, 7, 1, vec![1, 2, 3]).unwrap();
    assert_eq!(memory.len(), 3);
    memory.write_bytes(&[9, 9]);
    let mut out = vec![0; 3];
    memory.read_bytes(&mut out);
    assert_eq!(out, vec![9, 9, 3]);
    // A short destination gets the front; a long source is cut off.
    let mut short = vec![0; 2];
    memory.read_bytes(&mut short);
    assert_eq!(short, vec![9, 9]);
    memory.write_bytes(&[5, 6, 7, 8]);
    let buffer = memory.release(&mut kernel);
    assert_eq!(buffer, vec![5, 6, 7]);
}

#[test]
fn peekable_subscription_downgrades_one_way() {
    let mut kernel = Kernel::new();
    let mut peekable = PeekableCallbackSubscription::new(5, 0, LastPair::new());
    let target = peekable.peek();
    target.a = 17;
    let (subscription, consumer) = peekable.unpeek();
    assert_eq!(consumer, LastPair { seen: false, a: 17, b: 0 });
    subscription.release(&mut kernel);
    assert_eq!(
        log_of(&kernel),
        vec![SyscallEvent::SubscribeForget { driver_number: 5, subscribe_number: 0 }]
    );
}

#[test]
fn termination_reports_zero() {
    let ok: libtock::result::TockResult<()> = Ok(());
    assert_eq!(ok.report(), 0);
    let err: libtock::result::TockResult<()> = Err(TockError::Subscribe(SubscribeError {
        driver_number: 1,
        subscribe_number: 2,
        return_code: -3,
    }));
    assert_eq!(err.report(), 0);
}
