//! An observable double of the kernel side of the syscall boundary.
//!
//! The runtime reaches the kernel through exactly three traps — subscribe,
//! command and allow — plus the null forms of subscribe and allow that revoke
//! an earlier registration.  [`Kernel`] records every trap in an append-only
//! log and answers it with the next return code of a script supplied at
//! construction (an exhausted script answers success).  The contracts of the
//! whole crate are stated over this log, so what the kernel is told — and in
//! which order — is part of every proof.

use vstd::prelude::*;

verus! {

/// One observed trap. Each raw kernel call the runtime issues appends exactly
/// one of these to the kernel double's log.
#[derive(Copy, Clone, Debug, PartialEq, Eq, Structural)]
pub enum SyscallEvent {
    /// A subscribe trap registering a callback target.
    Subscribe { driver_number: usize, subscribe_number: usize },
    /// A subscribe trap with a null target: the kernel must forget the token
    /// it stored for this driver/subscribe pair.
    SubscribeForget { driver_number: usize, subscribe_number: usize },
    /// A synchronous command trap.
    Command { driver_number: usize, command_number: usize, arg1: usize, arg2: usize },
    /// The reduced-safety command trap that writes only the first argument
    /// register, leaking the previous contents of the second.
    CommandInsecure { driver_number: usize, command_number: usize, arg: usize },
    /// An allow trap granting the kernel access to a buffer of `len` bytes.
    Allow { driver_number: usize, allow_number: usize, len: usize },
    /// An allow trap with a null buffer: the kernel's access is revoked.
    AllowRevoke { driver_number: usize, allow_number: usize },
}

/// The mathematical state of the kernel double: the log of observed traps,
/// the bytes of each granted buffer at the moment of its grant, the script of
/// return codes, and how many of them have been consumed.
#[verifier::ext_equal]
pub ghost struct KernelModel {
    pub log: Seq<SyscallEvent>,
    pub granted: Seq<Seq<u8>>,
    pub codes: Seq<isize>,
    pub consumed: int,
}

/// The return code the next trap will receive: the next unconsumed scripted
/// code, or zero (success) once the script is exhausted.
pub open spec fn pending_code(k: KernelModel) -> isize {
    if 0 <= k.consumed < k.codes.len() {
        k.codes[k.consumed]
    } else {
        0
    }
}

/// The script position after one more trap.
pub open spec fn consumed_one(k: KernelModel) -> int {
    if 0 <= k.consumed < k.codes.len() {
        k.consumed + 1
    } else {
        k.consumed
    }
}

/// The kernel state after observing one trap: the event is appended and one
/// scripted code is consumed.
pub open spec fn observed(k: KernelModel, e: SyscallEvent) -> KernelModel {
    KernelModel { log: k.log.push(e), consumed: consumed_one(k), ..k }
}

/// The kernel state after a subscribe trap that registers a target.
pub open spec fn subscribe_observed(
    k: KernelModel,
    driver_number: usize,
    subscribe_number: usize,
) -> KernelModel {
    observed(k, SyscallEvent::Subscribe { driver_number, subscribe_number })
}

/// The kernel state after a subscribe trap with a null target.
pub open spec fn forget_observed(
    k: KernelModel,
    driver_number: usize,
    subscribe_number: usize,
) -> KernelModel {
    observed(k, SyscallEvent::SubscribeForget { driver_number, subscribe_number })
}

/// The kernel state after a command trap.
pub open spec fn command_observed(
    k: KernelModel,
    driver_number: usize,
    command_number: usize,
    arg1: usize,
    arg2: usize,
) -> KernelModel {
    observed(k, SyscallEvent::Command { driver_number, command_number, arg1, arg2 })
}

/// The kernel state after a reduced-safety one-argument command trap.
pub open spec fn command_insecure_observed(
    k: KernelModel,
    driver_number: usize,
    command_number: usize,
    arg: usize,
) -> KernelModel {
    observed(k, SyscallEvent::CommandInsecure { driver_number, command_number, arg })
}

/// The kernel state after an allow trap granting a buffer whose bytes at the
/// moment of the grant are `data`.
pub open spec fn allow_observed(
    k: KernelModel,
    driver_number: usize,
    allow_number: usize,
    data: Seq<u8>,
) -> KernelModel {
    KernelModel {
        log: k.log.push(
            SyscallEvent::Allow { driver_number, allow_number, len: data.len() as usize },
        ),
        granted: k.granted.push(data),
        consumed: consumed_one(k),
        ..k
    }
}

/// The kernel state after an allow trap with a null buffer.
pub open spec fn allow_revoke_observed(
    k: KernelModel,
    driver_number: usize,
    allow_number: usize,
) -> KernelModel {
    observed(k, SyscallEvent::AllowRevoke { driver_number, allow_number })
}

/// Law: a subscription registered with the kernel and later released is
/// observed as the subscribe record followed — before anything the caller
/// does afterwards — by exactly one forget record with the same driver and
/// subscribe numbers.  A successful [`crate::syscalls::subscribe`] returns a
/// handle carrying exactly the numbers it registered, and
/// [`crate::callback::CallbackSubscription::release`] appends the forget
/// record from those same fields; consuming the handle on release makes the
/// forget precede any reuse of the callback target's storage.
pub proof fn lemma_subscribe_then_release_observed(
    k: KernelModel,
    driver_number: usize,
    subscribe_number: usize,
)
    ensures
        ({
            let log2 = forget_observed(
                subscribe_observed(k, driver_number, subscribe_number),
                driver_number,
                subscribe_number,
            ).log;
            &&& log2.len() == k.log.len() + 2
            &&& log2[k.log.len() as int] == (SyscallEvent::Subscribe {
                driver_number,
                subscribe_number,
            })
            &&& log2.last() == (SyscallEvent::SubscribeForget { driver_number, subscribe_number })
            &&& forall|i: int| 0 <= i < k.log.len() ==> log2[i] == k.log[i]
        }),
{
}

/// Law: a buffer granted to the kernel and later released is observed as the
/// grant record followed by exactly one revoke record with the same driver
/// and allow numbers; the bytes the kernel was granted are recorded with the
/// grant.  Since [`crate::shared_memory::SharedMemory`] owns the buffer and
/// hands its storage back only from `release`, the revoke is observed before
/// the buffer can be reused for another grant.
pub proof fn lemma_allow_then_release_observed(
    k: KernelModel,
    driver_number: usize,
    allow_number: usize,
    data: Seq<u8>,
)
    ensures
        ({
            let k2 = allow_revoke_observed(
                allow_observed(k, driver_number, allow_number, data),
                driver_number,
                allow_number,
            );
            &&& k2.log.len() == k.log.len() + 2
            &&& k2.log[k.log.len() as int] == (SyscallEvent::Allow {
                driver_number,
                allow_number,
                len: data.len() as usize,
            })
            &&& k2.log.last() == (SyscallEvent::AllowRevoke { driver_number, allow_number })
            &&& forall|i: int| 0 <= i < k.log.len() ==> k2.log[i] == k.log[i]
            &&& k2.granted == k.granted.push(data)
        }),
{
}

/// Law: one release is observed as exactly one revoke: whether it is a
/// subscription's forget or a grant's revoke, the log grows by a single
/// record and every earlier record is untouched.  Release consumes the
/// handle, so a second revoke of the same registration cannot be issued.
pub proof fn lemma_release_revokes_exactly_once(
    k: KernelModel,
    driver_number: usize,
    number: usize,
)
    ensures
        forget_observed(k, driver_number, number).log.len() == k.log.len() + 1,
        forget_observed(k, driver_number, number).log.last() == (SyscallEvent::SubscribeForget {
            driver_number,
            subscribe_number: number,
        }),
        allow_revoke_observed(k, driver_number, number).log.len() == k.log.len() + 1,
        allow_revoke_observed(k, driver_number, number).log.last() == (SyscallEvent::AllowRevoke {
            driver_number,
            allow_number: number,
        }),
        forall|i: int|
            0 <= i < k.log.len() ==> forget_observed(k, driver_number, number).log[i] == k.log[i]
                && allow_revoke_observed(k, driver_number, number).log[i] == k.log[i],
{
}

/// The kernel double. Tests construct one, script its return codes, run the
/// runtime against it, and then read the log to see what the kernel was told.
pub struct Kernel {
    log: Vec<SyscallEvent>,
    codes: Vec<isize>,
    consumed: usize,
    granted: Ghost<Seq<Seq<u8>>>,
}

impl View for Kernel {
    type V = KernelModel;

    closed spec fn view(&self) -> KernelModel {
        KernelModel {
            log: self.log@,
            granted: self.granted@,
            codes: self.codes@,
            consumed: self.consumed as int,
        }
    }
}

impl Kernel {
    /// A kernel double that answers every trap with success.
    pub fn new() -> (kernel: Kernel)
        ensures
            kernel@.log.len() == 0,
            kernel@.granted.len() == 0,
            kernel@.codes.len() == 0,
            kernel@.consumed == 0,
    {
        Kernel { log: Vec::new(), codes: Vec::new(), consumed: 0, granted: Ghost(Seq::empty()) }
    }

    /// A kernel double that answers the first traps with the given codes, in
    /// order, and every later trap with success.
    pub fn scripted(codes: Vec<isize>) -> (kernel: Kernel)
        ensures
            kernel@.log.len() == 0,
            kernel@.granted.len() == 0,
            kernel@.codes == codes@,
            kernel@.consumed == 0,
    {
        Kernel { log: Vec::new(), codes, consumed: 0, granted: Ghost(Seq::empty()) }
    }

    /// Consumes and returns the next scripted code.
    fn take_code(&mut self) -> (rc: isize)
        ensures
            final(self)@.log == old(self)@.log,
            final(self)@.granted == old(self)@.granted,
            final(self)@.codes == old(self)@.codes,
            final(self)@.consumed == consumed_one(old(self)@),
            rc == pending_code(old(self)@),
    {
        if self.consumed < self.codes.len() {
            let rc: isize = self.codes[self.consumed];
            self.consumed = self.consumed + 1;
            rc
        } else {
            0
        }
    }

    /// The raw subscribe trap with a live callback target.
    pub fn raw_subscribe(&mut self, driver_number: usize, subscribe_number: usize) -> (rc: isize)
        ensures
            final(self)@ == subscribe_observed(old(self)@, driver_number, subscribe_number),
            rc == pending_code(old(self)@),
    {
        self.log.push(SyscallEvent::Subscribe { driver_number, subscribe_number });
        self.take_code()
    }

    /// The raw subscribe trap with a null target: tells the kernel to forget
    /// the token it stored for this driver/subscribe pair.
    pub fn raw_subscribe_null(
        &mut self,
        driver_number: usize,
        subscribe_number: usize,
    ) -> (rc: isize)
        ensures
            final(self)@ == forget_observed(old(self)@, driver_number, subscribe_number),
            rc == pending_code(old(self)@),
    {
        self.log.push(SyscallEvent::SubscribeForget { driver_number, subscribe_number });
        self.take_code()
    }

    /// The raw command trap.
    pub fn raw_command(
        &mut self,
        driver_number: usize,
        command_number: usize,
        arg1: usize,
        arg2: usize,
    ) -> (rc: isize)
        ensures
            final(self)@ == command_observed(old(self)@, driver_number, command_number, arg1, arg2),
            rc == pending_code(old(self)@),
    {
        self.log.push(SyscallEvent::Command { driver_number, command_number, arg1, arg2 });
        self.take_code()
    }

    /// The raw reduced-safety command trap that passes a single argument.
    pub fn raw_command1(
        &mut self,
        driver_number: usize,
        command_number: usize,
        arg: usize,
    ) -> (rc: isize)
        ensures
            final(self)@ == command_insecure_observed(old(self)@, driver_number, command_number, arg),
            rc == pending_code(old(self)@),
    {
        self.log.push(SyscallEvent::CommandInsecure { driver_number, command_number, arg });
        self.take_code()
    }

    /// The raw allow trap granting read/write access to `buffer`.
    pub fn raw_allow(
        &mut self,
        driver_number: usize,
        allow_number: usize,
        buffer: &Vec<u8>,
    ) -> (rc: isize)
        ensures
            final(self)@ == allow_observed(old(self)@, driver_number, allow_number, buffer@),
            rc == pending_code(old(self)@),
    {
        self.log.push(SyscallEvent::Allow { driver_number, allow_number, len: buffer.len() });
        self.granted = Ghost(self.granted@.push(buffer@));
        self.take_code()
    }

    /// The raw allow trap with a null buffer: revokes the kernel's access.
    pub fn raw_allow_null(&mut self, driver_number: usize, allow_number: usize) -> (rc: isize)
        ensures
            final(self)@ == allow_revoke_observed(old(self)@, driver_number, allow_number),
            rc == pending_code(old(self)@),
    {
        self.log.push(SyscallEvent::AllowRevoke { driver_number, allow_number });
        self.take_code()
    }

    /// How many traps the kernel has observed.
    pub fn log_len(&self) -> (n: usize)
        ensures
            n == self@.log.len(),
    {
        self.log.len()
    }

    /// The `i`-th observed trap, oldest first.
    pub fn event_at(&self, i: usize) -> (e: SyscallEvent)
        requires
            i < self@.log.len(),
        ensures
            e == self@.log[i as int],
    {
        self.log[i]
    }

    /// How many scripted codes have been consumed.
    pub fn codes_consumed(&self) -> (n: usize)
        ensures
            n == self@.consumed,
    {
        self.consumed
    }
}

} // verus!
