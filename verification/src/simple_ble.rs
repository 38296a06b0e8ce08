//! The BLE driver adapter: advertising out of a shared buffer and passive
//! scanning into one.

use vstd::prelude::*;

use crate::callback::{CallbackSubscription, PairConsumer, SubscribableCallback};
use crate::kernel::{
    allow_observed, allow_revoke_observed, command_observed, forget_observed, pending_code,
    subscribe_observed, Kernel,
};
use crate::result::{AllowError, CommandError, SubscribeError, TockError, TockResult};
use crate::shared_memory::{copy_len, SharedMemory, SharedMemoryModel};
use crate::syscalls;

verus! {

pub const DRIVER_NUMBER: usize = 0x30000;

pub const MAX_PAYLOAD_SIZE: usize = 9;

pub const BUFFER_SIZE_ADVERTISE: usize = 39;

pub const BUFFER_SIZE_SCAN: usize = 39;

pub const COMMAND_START_ADVERTISING: usize = 0;

pub const ALLOW_ADVERTISMENT_BUFFER: usize = 0;

pub const SUBSCRIBE_PASSIVE_SCAN: usize = 0;

pub const ALLOW_SCAN_BUFFER: usize = 1;

pub const COMMAND_PASSIVE_SCAN: usize = 5;

pub const GAP_FLAG_DISCOVERABLE: usize = 0x02;

pub const GAP_DATA_COMPLETE_LIST_16BIT_SERVICE_IDS: usize = 0x03;

pub const GAP_DATA_COMPLETE_LOCAL_NAME: usize = 0x09;

pub const GAP_DATA_SET_FLAGS: usize = 1;

pub const GAP_DATA_SERVICE_DATA: usize = 0x16;

/// The bytes of the advertising buffer once the service payload has been
/// copied into its front.
pub open spec fn advertising_data(payload: Seq<u8>, buffer: Seq<u8>) -> Seq<u8> {
    payload.take(copy_len(payload.len(), buffer.len()) as int) + buffer.skip(
        copy_len(payload.len(), buffer.len()) as int,
    )
}

/// Drives BLE advertising.
pub struct BleAdvertisingDriver;

impl BleAdvertisingDriver {
    /// A zeroed advertising buffer of the driver's size.
    pub fn create_advertising_buffer() -> (buffer: Vec<u8>)
        ensures
            buffer@.len() == BUFFER_SIZE_ADVERTISE,
            forall|i: int| 0 <= i < BUFFER_SIZE_ADVERTISE ==> buffer@[i] == 0,
    {
        zeroed_buffer(BUFFER_SIZE_ADVERTISE)
    }

    /// Grants the advertising buffer to the kernel, copies the service
    /// payload into the granted region and starts discoverable advertising at
    /// `interval`.
    ///
    /// The kernel decides both traps: a rejected grant fails with that allow
    /// error; a rejected start revokes the grant again and fails with that
    /// command error.  Otherwise the returned handle holds the granted region
    /// with the payload at its front.
    pub fn initialize(
        kernel: &mut Kernel,
        interval: usize,
        service_payload: &[u8],
        advertising_buffer: Vec<u8>,
    ) -> (r: TockResult<SharedMemory>)
        ensures
            ({
                let k0 = old(kernel)@;
                let c0 = pending_code(k0);
                let k1 = allow_observed(
                    k0,
                    DRIVER_NUMBER,
                    ALLOW_ADVERTISMENT_BUFFER,
                    advertising_buffer@,
                );
                if c0 != 0 {
                    final(kernel)@ == k1 && r == Err::<SharedMemory, TockError>(
                        TockError::Allow(
                            AllowError {
                                driver_number: DRIVER_NUMBER,
                                allow_number: ALLOW_ADVERTISMENT_BUFFER,
                                return_code: c0,
                            },
                        ),
                    )
                } else {
                    let c1 = pending_code(k1);
                    let k2 = command_observed(
                        k1,
                        DRIVER_NUMBER,
                        COMMAND_START_ADVERTISING,
                        GAP_FLAG_DISCOVERABLE,
                        interval,
                    );
                    if c1 < 0 {
                        final(kernel)@ == allow_revoke_observed(
                            k2,
                            DRIVER_NUMBER,
                            ALLOW_ADVERTISMENT_BUFFER,
                        ) && r == Err::<SharedMemory, TockError>(
                            TockError::Command(
                                CommandError {
                                    driver_number: DRIVER_NUMBER,
                                    command_number: COMMAND_START_ADVERTISING,
                                    arg1: GAP_FLAG_DISCOVERABLE,
                                    arg2: interval,
                                    return_code: c1,
                                },
                            ),
                        )
                    } else {
                        final(kernel)@ == k2 && match r {
                            Ok(memory) => memory@ == (SharedMemoryModel {
                                driver_number: DRIVER_NUMBER,
                                allow_number: ALLOW_ADVERTISMENT_BUFFER,
                                data: advertising_data(service_payload@, advertising_buffer@),
                            }),
                            Err(_) => false,
                        }
                    }
                }
            }),
    {
        let mut shared_memory = match syscalls::allow(
            kernel,
            DRIVER_NUMBER,
            ALLOW_ADVERTISMENT_BUFFER,
            advertising_buffer,
        ) {
            Ok(memory) => memory,
            Err(e) => {
                return Err(TockError::Allow(e));
            },
        };
        shared_memory.write_bytes(service_payload);
        match Self::start_advertising(kernel, GAP_FLAG_DISCOVERABLE, interval) {
            Ok(()) => Ok(shared_memory),
            Err(e) => {
                let _ = shared_memory.release(kernel);
                Err(e)
            },
        }
    }

    /// Issues the start-advertising command.
    pub fn start_advertising(kernel: &mut Kernel, pdu_type: usize, interval: usize) -> (r:
        TockResult<()>)
        ensures
            final(kernel)@ == command_observed(
                old(kernel)@,
                DRIVER_NUMBER,
                COMMAND_START_ADVERTISING,
                pdu_type,
                interval,
            ),
            ({
                let code = pending_code(old(kernel)@);
                if code >= 0 {
                    r == Ok::<(), TockError>(())
                } else {
                    r == Err::<(), TockError>(
                        TockError::Command(
                            CommandError {
                                driver_number: DRIVER_NUMBER,
                                command_number: COMMAND_START_ADVERTISING,
                                arg1: pdu_type,
                                arg2: interval,
                                return_code: code,
                            },
                        ),
                    )
                }
            }),
    {
        match syscalls::command(kernel, DRIVER_NUMBER, COMMAND_START_ADVERTISING, pdu_type, interval) {
            Ok(_) => Ok(()),
            Err(e) => Err(TockError::Command(e)),
        }
    }
}

/// Wraps a two-argument consumer — called with the two scan-report arguments —
/// as a subscribable callback target.
pub struct BleCallback<CB> {
    pub callback: CB,
}

impl<CB> BleCallback<CB> {
    pub fn new(callback: CB) -> (wrapped: Self)
        ensures
            wrapped.callback == callback,
    {
        BleCallback { callback }
    }
}

impl<CB: PairConsumer> SubscribableCallback for BleCallback<CB> {
    /// The driver delivers `(status, address, _)`; the third argument carries
    /// nothing and is dropped.
    open spec fn on_event(pre: Self, arg1: usize, arg2: usize, arg3: usize) -> Self {
        BleCallback { callback: CB::on_pair(pre.callback, arg1, arg2) }
    }

    fn call_rust(&mut self, arg1: usize, arg2: usize, arg3: usize) {
        self.callback.consume_pair(arg1, arg2);
    }
}

/// Drives passive BLE scanning.
pub struct BleDriver;

impl BleDriver {
    /// A zeroed scan buffer of the driver's size.
    pub fn create_scan_buffer() -> (buffer: Vec<u8>)
        ensures
            buffer@.len() == BUFFER_SIZE_SCAN,
            forall|i: int| 0 <= i < BUFFER_SIZE_SCAN ==> buffer@[i] == 0,
    {
        zeroed_buffer(BUFFER_SIZE_SCAN)
    }

    /// Grants the scan buffer to the kernel.
    pub fn share_memory(kernel: &mut Kernel, scan_buffer: Vec<u8>) -> (r: TockResult<SharedMemory>)
        ensures
            final(kernel)@ == allow_observed(
                old(kernel)@,
                DRIVER_NUMBER,
                ALLOW_SCAN_BUFFER,
                scan_buffer@,
            ),
            match r {
                Ok(memory) => pending_code(old(kernel)@) == 0 && memory@ == (SharedMemoryModel {
                    driver_number: DRIVER_NUMBER,
                    allow_number: ALLOW_SCAN_BUFFER,
                    data: scan_buffer@,
                }),
                Err(e) => pending_code(old(kernel)@) != 0 && e == TockError::Allow(
                    AllowError {
                        driver_number: DRIVER_NUMBER,
                        allow_number: ALLOW_SCAN_BUFFER,
                        return_code: pending_code(old(kernel)@),
                    },
                ),
            },
    {
        match syscalls::allow(kernel, DRIVER_NUMBER, ALLOW_SCAN_BUFFER, scan_buffer) {
            Ok(memory) => Ok(memory),
            Err(e) => Err(TockError::Allow(e)),
        }
    }

    /// Subscribes the scan callback and starts passive scanning.
    ///
    /// A rejected subscribe fails with that error; a rejected scan command
    /// releases the subscription again — the kernel forgets the token — and
    /// fails with that command error.
    pub fn start<CB: PairConsumer>(kernel: &mut Kernel, callback: &mut BleCallback<CB>) -> (r:
        TockResult<CallbackSubscription>)
        ensures
            *final(callback) == *old(callback),
            ({
                let k0 = old(kernel)@;
                let c0 = pending_code(k0);
                let k1 = subscribe_observed(k0, DRIVER_NUMBER, SUBSCRIBE_PASSIVE_SCAN);
                if c0 != 0 {
                    final(kernel)@ == k1 && r == Err::<CallbackSubscription, TockError>(
                        TockError::Subscribe(
                            SubscribeError {
                                driver_number: DRIVER_NUMBER,
                                subscribe_number: SUBSCRIBE_PASSIVE_SCAN,
                                return_code: c0,
                            },
                        ),
                    )
                } else {
                    let c1 = pending_code(k1);
                    let k2 = command_observed(k1, DRIVER_NUMBER, COMMAND_PASSIVE_SCAN, 1, 0);
                    if c1 < 0 {
                        final(kernel)@ == forget_observed(
                            k2,
                            DRIVER_NUMBER,
                            SUBSCRIBE_PASSIVE_SCAN,
                        ) && r == Err::<CallbackSubscription, TockError>(
                            TockError::Command(
                                CommandError {
                                    driver_number: DRIVER_NUMBER,
                                    command_number: COMMAND_PASSIVE_SCAN,
                                    arg1: 1,
                                    arg2: 0,
                                    return_code: c1,
                                },
                            ),
                        )
                    } else {
                        final(kernel)@ == k2 && match r {
                            Ok(subscription) => subscription.spec_driver_number() == DRIVER_NUMBER
                                && subscription.spec_subscribe_number() == SUBSCRIBE_PASSIVE_SCAN,
                            Err(_) => false,
                        }
                    }
                }
            }),
    {
        let subscription = match syscalls::subscribe(
            kernel,
            DRIVER_NUMBER,
            SUBSCRIBE_PASSIVE_SCAN,
            callback,
        ) {
            Ok(subscription) => subscription,
            Err(e) => {
                return Err(TockError::Subscribe(e));
            },
        };
        match syscalls::command(kernel, DRIVER_NUMBER, COMMAND_PASSIVE_SCAN, 1, 0) {
            Ok(_) => Ok(subscription),
            Err(e) => {
                subscription.release(kernel);
                Err(TockError::Command(e))
            },
        }
    }
}

/// A zeroed buffer of length `len`.
fn zeroed_buffer(len: usize) -> (buffer: Vec<u8>)
    ensures
        buffer@.len() == len,
        forall|i: int| 0 <= i < len ==> buffer@[i] == 0,
{
    let mut bytes: Vec<u8> = Vec::new();
    let mut i: usize = 0;
    while i < len
        invariant
            i <= len,
            bytes@.len() == i,
            forall|j: int| 0 <= j < i ==> bytes@[j] == 0,
        decreases len - i,
    {
        bytes.push(0);
        i = i + 1;
    }
    bytes
}

} // verus!
