//! Callback targets and the scoped handle a subscription returns.
//!
//! The kernel cannot call into arbitrary code: per subscription it invokes one
//! fixed three-argument entry point together with an opaque token that
//! resolves back to the registered target.  [`dispatch`] is that entry point's
//! safe face: it forwards the three event arguments to the target, and its
//! contract says exactly how the target's recorded state changes.
//!
//! A [`CallbackSubscription`] is the release obligation that a successful
//! subscribe call creates: it must be handed back through
//! [`CallbackSubscription::release`] — which tells the kernel to forget its
//! stored token — before the target's storage may be reused.  Ownership makes
//! the release happen at most once; the contract makes it observable as
//! exactly one forget record.

use vstd::prelude::*;

use crate::kernel::{forget_observed, Kernel};

verus! {

/// A type the kernel can deliver events to.
///
/// The associated spec function pins down how one delivered event transforms
/// the target, so everything a callback does to its recorded state is part of
/// its contract.
pub trait SubscribableCallback: Sized {
    /// The target's state after one event with arguments `(arg1, arg2, arg3)`.
    spec fn on_event(pre: Self, arg1: usize, arg2: usize, arg3: usize) -> Self;

    /// Receive one event. The kernel may deliver events at any yield point,
    /// including nested inside a wait loop, so a target may only assume
    /// exclusive access to its own state for the single invocation.
    fn call_rust(&mut self, arg1: usize, arg2: usize, arg3: usize)
        ensures
            *final(self) == Self::on_event(*old(self), arg1, arg2, arg3),
    ;
}

/// A consumer of two-argument events, for adapters that narrow the kernel's
/// three event arguments down to the two their driver actually defines.
pub trait PairConsumer: Sized {
    /// The consumer's state after one pair.
    spec fn on_pair(pre: Self, a: usize, b: usize) -> Self;

    /// Receive one pair.
    fn consume_pair(&mut self, a: usize, b: usize)
        ensures
            *final(self) == Self::on_pair(*old(self), a, b),
    ;
}

/// The simplest pair consumer: it keeps the most recent pair delivered to it,
/// and whether any pair has arrived at all.
#[derive(Copy, Clone, Debug, PartialEq, Eq, Structural)]
pub struct LastPair {
    pub seen: bool,
    pub a: usize,
    pub b: usize,
}

impl LastPair {
    /// A consumer that has seen nothing yet.
    pub fn new() -> (consumer: LastPair)
        ensures
            consumer == (LastPair { seen: false, a: 0, b: 0 }),
    {
        LastPair { seen: false, a: 0, b: 0 }
    }
}

impl PairConsumer for LastPair {
    open spec fn on_pair(pre: Self, a: usize, b: usize) -> Self {
        LastPair { seen: true, a, b }
    }

    fn consume_pair(&mut self, a: usize, b: usize) {
        self.seen = true;
        self.a = a;
        self.b = b;
    }
}

/// The dispatch trampoline: the fixed entry point the kernel invokes on event
/// delivery, once the opaque token has been resolved back to the target it
/// was created from.
pub fn dispatch<CB: SubscribableCallback>(
    callback: &mut CB,
    arg1: usize,
    arg2: usize,
    arg3: usize,
)
    ensures
        *final(callback) == CB::on_event(*old(callback), arg1, arg2, arg3),
{
    callback.call_rust(arg1, arg2, arg3);
}

/// The release obligation of a live subscription: the kernel holds a token
/// for this driver/subscribe pair until `release` tells it to forget it.
#[must_use]
pub struct CallbackSubscription {
    driver_number: usize,
    subscribe_number: usize,
}

impl CallbackSubscription {
    /// The driver number the subscription was registered under.
    pub closed spec fn spec_driver_number(&self) -> usize {
        self.driver_number
    }

    /// The subscribe number the subscription was registered under.
    pub closed spec fn spec_subscribe_number(&self) -> usize {
        self.subscribe_number
    }

    pub(crate) fn new(driver_number: usize, subscribe_number: usize) -> (subscription: Self)
        ensures
            subscription.spec_driver_number() == driver_number,
            subscription.spec_subscribe_number() == subscribe_number,
    {
        CallbackSubscription { driver_number, subscribe_number }
    }

    /// Tells the kernel to forget the token it stored for this subscription.
    ///
    /// Release is infallible from the caller's point of view: a kernel
    /// rejection is swallowed, since release commonly runs during
    /// unconditional cleanup where no recovery action exists.  Consuming
    /// `self` makes a second release of the same subscription impossible.
    pub fn release(self, kernel: &mut Kernel)
        ensures
            final(kernel)@ == forget_observed(
                old(kernel)@,
                self.spec_driver_number(),
                self.spec_subscribe_number(),
            ),
    {
        let _ = kernel.raw_subscribe_null(self.driver_number, self.subscribe_number);
    }
}

/// A subscription still paired with its callback target, so the caller can
/// inspect or mutate the target once — say, to read an event the kernel
/// delivered eagerly — before downgrading to a plain subscription for
/// ordinary waiting.  The downgrade is one-way.
#[must_use]
pub struct PeekableCallbackSubscription<CB> {
    subscription: CallbackSubscription,
    callback: CB,
}

impl<CB> PeekableCallbackSubscription<CB> {
    /// The wrapped subscription.
    pub closed spec fn spec_subscription(&self) -> CallbackSubscription {
        self.subscription
    }

    /// The paired callback target.
    pub closed spec fn spec_callback(&self) -> CB {
        self.callback
    }

    /// Pairs a fresh registration under `(driver_number, subscribe_number)`
    /// with its callback target.
    pub fn new(driver_number: usize, subscribe_number: usize, callback: CB) -> (peekable: Self)
        ensures
            peekable.spec_subscription().spec_driver_number() == driver_number,
            peekable.spec_subscription().spec_subscribe_number() == subscribe_number,
            peekable.spec_callback() == callback,
    {
        PeekableCallbackSubscription {
            subscription: CallbackSubscription { driver_number, subscribe_number },
            callback,
        }
    }

    /// Borrows the callback target for inspection or mutation.
    pub fn peek(&mut self) -> (target: &mut CB)
        ensures
            *target == old(self).spec_callback(),
            final(self).spec_callback() == *final(target),
            final(self).spec_subscription() == old(self).spec_subscription(),
    {
        &mut self.callback
    }

    /// Downgrades to a plain subscription, handing the callback target back
    /// to the caller, who must keep it alive while the subscription lives.
    pub fn unpeek(self) -> (parts: (CallbackSubscription, CB))
        ensures
            parts.0 == self.spec_subscription(),
            parts.1 == self.spec_callback(),
    {
        (self.subscription, self.callback)
    }
}

} // verus!
