//! The ADC driver adapter: sampling commands, a subscribed sample callback,
//! and the shared buffers continuous sampling fills.

use vstd::prelude::*;

use crate::callback::{CallbackSubscription, PairConsumer, SubscribableCallback};
use crate::kernel::{
    allow_observed, command_observed, forget_observed, pending_code, subscribe_observed, Kernel,
};
use crate::result::{AllowError, CommandError, SubscribeError, TockError, TockResult};
use crate::shared_memory::{SharedMemory, SharedMemoryModel};
use crate::syscalls;

verus! {

pub const DRIVER_NUM: usize = 5;

pub const BUFFER_SIZE: usize = 128;

pub const COMMAND_COUNT: usize = 0;

pub const COMMAND_START: usize = 1;

pub const COMMAND_START_REPEAT: usize = 2;

pub const COMMAND_START_REPEAT_BUFFER: usize = 3;

pub const COMMAND_START_REPEAT_BUFFER_ALT: usize = 4;

pub const COMMAND_STOP: usize = 5;

pub const SUBSCRIBE_CALLBACK: usize = 0;

pub const ALLOW_BUFFER: usize = 0;

pub const ALLOW_BUFFER_ALT: usize = 1;

/// A sample buffer of the size the ADC driver expects.
pub struct AdcBuffer {
    buffer: Vec<u8>,
}

impl AdcBuffer {
    /// The buffer's bytes.
    pub closed spec fn spec_buffer(&self) -> Seq<u8> {
        self.buffer@
    }

    /// A zeroed buffer of the driver's size.
    pub fn new() -> (buffer: AdcBuffer)
        ensures
            buffer.spec_buffer().len() == BUFFER_SIZE,
            forall|i: int| 0 <= i < BUFFER_SIZE ==> buffer.spec_buffer()[i] == 0,
    {
        let mut bytes: Vec<u8> = Vec::new();
        let mut i: usize = 0;
        while i < BUFFER_SIZE
            invariant
                i <= BUFFER_SIZE,
                bytes@.len() == i,
                forall|j: int| 0 <= j < i ==> bytes@[j] == 0,
            decreases BUFFER_SIZE - i,
        {
            bytes.push(0);
            i = i + 1;
        }
        AdcBuffer { buffer: bytes }
    }
}

/// Wraps a two-argument consumer — called with the sampled channel and value —
/// as a subscribable callback target.
pub struct WithCallback<CB> {
    pub callback: CB,
}

/// Wraps `callback` so it can be subscribed to the ADC driver.
pub fn with_callback<CB>(callback: CB) -> (wrapped: WithCallback<CB>)
    ensures
        wrapped.callback == callback,
{
    WithCallback { callback }
}

impl<CB: PairConsumer> SubscribableCallback for WithCallback<CB> {
    /// The driver delivers `(_, channel, value)`; the first argument carries
    /// nothing and is dropped.
    open spec fn on_event(pre: Self, arg1: usize, arg2: usize, arg3: usize) -> Self {
        WithCallback { callback: CB::on_pair(pre.callback, arg2, arg3) }
    }

    fn call_rust(&mut self, arg1: usize, arg2: usize, arg3: usize) {
        self.callback.consume_pair(arg2, arg3);
    }
}

impl<CB: PairConsumer> WithCallback<CB> {
    /// Counts the ADC channels and subscribes this callback target.
    ///
    /// The kernel decides both steps: a negative count answer fails with that
    /// command error and no subscription is attempted; a non-zero subscribe
    /// answer fails with that subscribe error.  Otherwise the driver holds
    /// the reported channel count and the subscription's release obligation.
    pub fn init(&mut self, kernel: &mut Kernel) -> (r: TockResult<Adc>)
        ensures
            *final(self) == *old(self),
            ({
                let k0 = old(kernel)@;
                let c0 = pending_code(k0);
                let k1 = command_observed(k0, DRIVER_NUM, COMMAND_COUNT, 0, 0);
                if c0 < 0 {
                    final(kernel)@ == k1 && r == Err::<Adc, TockError>(
                        TockError::Command(
                            CommandError {
                                driver_number: DRIVER_NUM,
                                command_number: COMMAND_COUNT,
                                arg1: 0,
                                arg2: 0,
                                return_code: c0,
                            },
                        ),
                    )
                } else {
                    let c1 = pending_code(k1);
                    final(kernel)@ == subscribe_observed(k1, DRIVER_NUM, SUBSCRIBE_CALLBACK)
                        && if c1 != 0 {
                        r == Err::<Adc, TockError>(
                            TockError::Subscribe(
                                SubscribeError {
                                    driver_number: DRIVER_NUM,
                                    subscribe_number: SUBSCRIBE_CALLBACK,
                                    return_code: c1,
                                },
                            ),
                        )
                    } else {
                        match r {
                            Ok(adc) => adc.spec_count() == c0 as usize
                                && adc.spec_subscription().spec_driver_number() == DRIVER_NUM
                                && adc.spec_subscription().spec_subscribe_number()
                                == SUBSCRIBE_CALLBACK,
                            Err(_) => false,
                        }
                    }
                }
            }),
    {
        let count = match syscalls::command(kernel, DRIVER_NUM, COMMAND_COUNT, 0, 0) {
            Ok(count) => count,
            Err(e) => {
                return Err(TockError::Command(e));
            },
        };
        let subscription = match syscalls::subscribe(kernel, DRIVER_NUM, SUBSCRIBE_CALLBACK, self) {
            Ok(subscription) => subscription,
            Err(e) => {
                return Err(TockError::Subscribe(e));
            },
        };
        Ok(Adc { count, subscription })
    }
}

/// A live ADC driver: the reported channel count plus the release obligation
/// of the sample callback's subscription.
pub struct Adc {
    count: usize,
    subscription: CallbackSubscription,
}

impl Adc {
    /// The number of channels the kernel reported at initialization.
    pub closed spec fn spec_count(&self) -> usize {
        self.count
    }

    /// The release obligation created at initialization.
    pub closed spec fn spec_subscription(&self) -> CallbackSubscription {
        self.subscription
    }

    /// Grants the driver its primary sample buffer.
    pub fn init_buffer(kernel: &mut Kernel, buffer: AdcBuffer) -> (r: TockResult<SharedMemory>)
        ensures
            final(kernel)@ == allow_observed(
                old(kernel)@,
                DRIVER_NUM,
                ALLOW_BUFFER,
                buffer.spec_buffer(),
            ),
            match r {
                Ok(memory) => pending_code(old(kernel)@) == 0 && memory@ == (SharedMemoryModel {
                    driver_number: DRIVER_NUM,
                    allow_number: ALLOW_BUFFER,
                    data: buffer.spec_buffer(),
                }),
                Err(e) => pending_code(old(kernel)@) != 0 && e == TockError::Allow(
                    AllowError {
                        driver_number: DRIVER_NUM,
                        allow_number: ALLOW_BUFFER,
                        return_code: pending_code(old(kernel)@),
                    },
                ),
            },
    {
        match syscalls::allow(kernel, DRIVER_NUM, ALLOW_BUFFER, buffer.buffer) {
            Ok(memory) => Ok(memory),
            Err(e) => Err(TockError::Allow(e)),
        }
    }

    /// Grants the driver its alternating sample buffer.
    pub fn init_alt_buffer(kernel: &mut Kernel, alt_buffer: AdcBuffer) -> (r: TockResult<
        SharedMemory,
    >)
        ensures
            final(kernel)@ == allow_observed(
                old(kernel)@,
                DRIVER_NUM,
                ALLOW_BUFFER_ALT,
                alt_buffer.spec_buffer(),
            ),
            match r {
                Ok(memory) => pending_code(old(kernel)@) == 0 && memory@ == (SharedMemoryModel {
                    driver_number: DRIVER_NUM,
                    allow_number: ALLOW_BUFFER_ALT,
                    data: alt_buffer.spec_buffer(),
                }),
                Err(e) => pending_code(old(kernel)@) != 0 && e == TockError::Allow(
                    AllowError {
                        driver_number: DRIVER_NUM,
                        allow_number: ALLOW_BUFFER_ALT,
                        return_code: pending_code(old(kernel)@),
                    },
                ),
            },
    {
        match syscalls::allow(kernel, DRIVER_NUM, ALLOW_BUFFER_ALT, alt_buffer.buffer) {
            Ok(memory) => Ok(memory),
            Err(e) => Err(TockError::Allow(e)),
        }
    }

    /// The number of available channels.
    pub fn count(&self) -> (count: usize)
        ensures
            count == self.spec_count(),
    {
        self.count
    }

    /// Starts a single sample of `channel`.
    pub fn sample(&self, kernel: &mut Kernel, channel: usize) -> (r: TockResult<()>)
        ensures
            final(kernel)@ == command_observed(old(kernel)@, DRIVER_NUM, COMMAND_START, channel, 0),
            r == sample_command_result(old(kernel)@, COMMAND_START, channel, 0),
    {
        match syscalls::command(kernel, DRIVER_NUM, COMMAND_START, channel, 0) {
            Ok(_) => Ok(()),
            Err(e) => Err(TockError::Command(e)),
        }
    }

    /// Starts continuous sampling of `channel`.
    pub fn sample_continuous(&self, kernel: &mut Kernel, channel: usize) -> (r: TockResult<()>)
        ensures
            final(kernel)@ == command_observed(
                old(kernel)@,
                DRIVER_NUM,
                COMMAND_START_REPEAT,
                channel,
                0,
            ),
            r == sample_command_result(old(kernel)@, COMMAND_START_REPEAT, channel, 0),
    {
        match syscalls::command(kernel, DRIVER_NUM, COMMAND_START_REPEAT, channel, 0) {
            Ok(_) => Ok(()),
            Err(e) => Err(TockError::Command(e)),
        }
    }

    /// Starts continuous sampling of `channel` into the primary buffer.
    pub fn sample_continuous_buffered(
        &self,
        kernel: &mut Kernel,
        channel: usize,
        frequency: usize,
    ) -> (r: TockResult<()>)
        ensures
            final(kernel)@ == command_observed(
                old(kernel)@,
                DRIVER_NUM,
                COMMAND_START_REPEAT_BUFFER,
                channel,
                frequency,
            ),
            r == sample_command_result(old(kernel)@, COMMAND_START_REPEAT_BUFFER, channel, frequency),
    {
        match syscalls::command(kernel, DRIVER_NUM, COMMAND_START_REPEAT_BUFFER, channel, frequency) {
            Ok(_) => Ok(()),
            Err(e) => Err(TockError::Command(e)),
        }
    }

    /// Starts continuous sampling of `channel`, alternating the two buffers.
    pub fn sample_continuous_buffered_alt(
        &self,
        kernel: &mut Kernel,
        channel: usize,
        frequency: usize,
    ) -> (r: TockResult<()>)
        ensures
            final(kernel)@ == command_observed(
                old(kernel)@,
                DRIVER_NUM,
                COMMAND_START_REPEAT_BUFFER_ALT,
                channel,
                frequency,
            ),
            r == sample_command_result(
                old(kernel)@,
                COMMAND_START_REPEAT_BUFFER_ALT,
                channel,
                frequency,
            ),
    {
        match syscalls::command(
            kernel,
            DRIVER_NUM,
            COMMAND_START_REPEAT_BUFFER_ALT,
            channel,
            frequency,
        ) {
            Ok(_) => Ok(()),
            Err(e) => Err(TockError::Command(e)),
        }
    }

    /// Stops any started sampling operation.
    pub fn stop(&self, kernel: &mut Kernel) -> (r: TockResult<()>)
        ensures
            final(kernel)@ == command_observed(old(kernel)@, DRIVER_NUM, COMMAND_STOP, 0, 0),
            r == sample_command_result(old(kernel)@, COMMAND_STOP, 0, 0),
    {
        match syscalls::command(kernel, DRIVER_NUM, COMMAND_STOP, 0, 0) {
            Ok(_) => Ok(()),
            Err(e) => Err(TockError::Command(e)),
        }
    }

    /// Stops sampling (swallowing a rejection, as teardown must) and releases
    /// the callback subscription.
    pub fn release(self, kernel: &mut Kernel)
        ensures
            final(kernel)@ == forget_observed(
                command_observed(old(kernel)@, DRIVER_NUM, COMMAND_STOP, 0, 0),
                self.spec_subscription().spec_driver_number(),
                self.spec_subscription().spec_subscribe_number(),
            ),
    {
        let _ = self.stop(kernel);
        self.subscription.release(kernel);
    }
}

/// What an ADC command that only signals success or failure returns: unit on
/// a non-negative code, the command error otherwise.
pub open spec fn sample_command_result(
    k: crate::kernel::KernelModel,
    command_number: usize,
    arg1: usize,
    arg2: usize,
) -> TockResult<()> {
    let code = pending_code(k);
    if code >= 0 {
        Ok(())
    } else {
        Err(
            TockError::Command(
                CommandError { driver_number: DRIVER_NUM, command_number, arg1, arg2, return_code: code },
            ),
        )
    }
}

} // verus!
