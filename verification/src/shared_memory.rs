//! Scoped shared memory: a capability handle over a buffer the kernel may
//! read and write.
//!
//! While the grant is live the handle owns the buffer, so no caller can reuse
//! or alias its storage; `read_bytes` and `write_bytes` copy to and from the
//! granted region without ever exposing it.  [`SharedMemory::release`] revokes
//! the kernel's access and only then hands the buffer's storage back.

use vstd::prelude::*;

use crate::kernel::{allow_revoke_observed, Kernel};

verus! {

/// The mathematical state of a live grant: which driver/allow pair holds it
/// and the bytes of the granted region.
#[verifier::ext_equal]
pub ghost struct SharedMemoryModel {
    pub driver_number: usize,
    pub allow_number: usize,
    pub data: Seq<u8>,
}

/// The shorter of two lengths: how many bytes a copy between regions of these
/// lengths moves.
pub open spec fn copy_len(src_len: nat, dst_len: nat) -> nat {
    if src_len <= dst_len {
        src_len
    } else {
        dst_len
    }
}

/// The release obligation of a live grant: the kernel may access the buffer
/// until `release` revokes the grant and returns the buffer's storage.
#[must_use]
pub struct SharedMemory {
    driver_number: usize,
    allow_number: usize,
    buffer: Vec<u8>,
}

impl View for SharedMemory {
    type V = SharedMemoryModel;

    closed spec fn view(&self) -> SharedMemoryModel {
        SharedMemoryModel {
            driver_number: self.driver_number,
            allow_number: self.allow_number,
            data: self.buffer@,
        }
    }
}

impl SharedMemory {
    pub(crate) fn new(
        driver_number: usize,
        allow_number: usize,
        buffer: Vec<u8>,
    ) -> (memory: SharedMemory)
        ensures
            memory@ == (SharedMemoryModel { driver_number, allow_number, data: buffer@ }),
    {
        SharedMemory { driver_number, allow_number, buffer }
    }

    /// The length of the granted region.
    pub fn len(&self) -> (n: usize)
        ensures
            n == self@.data.len(),
    {
        self.buffer.len()
    }

    /// Copies bytes out of the granted region into the front of
    /// `destination`, as many as both lengths admit.
    pub fn read_bytes(&self, destination: &mut Vec<u8>)
        ensures
            ({
                let n = copy_len(self@.data.len(), old(destination)@.len()) as int;
                final(destination)@ == self@.data.take(n) + old(destination)@.skip(n)
            }),
    {
        let n: usize = if self.buffer.len() <= destination.len() {
            self.buffer.len()
        } else {
            destination.len()
        };
        let ghost orig = destination@;
        let mut i: usize = 0;
        while i < n
            invariant
                i <= n,
                n == copy_len(self@.data.len(), orig.len()),
                destination@.len() == orig.len(),
                destination@ == self@.data.take(i as int) + orig.skip(i as int),
            decreases n - i,
        {
            destination.set(i, self.buffer[i]);
            proof {
                assert(destination@ =~= self@.data.take(i + 1) + orig.skip(i + 1));
            }
            i = i + 1;
        }
    }

    /// Copies the front of `source` into the granted region, as many bytes as
    /// both lengths admit. The grant itself is unchanged.
    pub fn write_bytes(&mut self, source: &[u8])
        ensures
            final(self)@.driver_number == old(self)@.driver_number,
            final(self)@.allow_number == old(self)@.allow_number,
            ({
                let n = copy_len(source@.len(), old(self)@.data.len()) as int;
                final(self)@.data == source@.take(n) + old(self)@.data.skip(n)
            }),
    {
        let n: usize = if source.len() <= self.buffer.len() {
            source.len()
        } else {
            self.buffer.len()
        };
        let ghost orig = self.buffer@;
        let ghost orig_driver = self.driver_number;
        let ghost orig_allow = self.allow_number;
        let mut i: usize = 0;
        while i < n
            invariant
                i <= n,
                n == copy_len(source@.len(), orig.len()),
                self.driver_number == orig_driver,
                self.allow_number == orig_allow,
                self.buffer@.len() == orig.len(),
                self.buffer@ == source@.take(i as int) + orig.skip(i as int),
            decreases n - i,
        {
            self.buffer.set(i, source[i]);
            proof {
                assert(self.buffer@ =~= source@.take(i + 1) + orig.skip(i + 1));
            }
            i = i + 1;
        }
    }

    /// Revokes the kernel's access and hands the buffer's storage back.
    ///
    /// Release is infallible from the caller's point of view: a kernel
    /// rejection is swallowed. Consuming `self` makes a second revoke of the
    /// same grant impossible, and no caller can touch the buffer before the
    /// revoke has been observed.
    pub fn release(self, kernel: &mut Kernel) -> (buffer: Vec<u8>)
        ensures
            final(kernel)@ == allow_revoke_observed(
                old(kernel)@,
                self@.driver_number,
                self@.allow_number,
            ),
            buffer@ == self@.data,
    {
        let _ = kernel.raw_allow_null(self.driver_number, self.allow_number);
        self.buffer
    }
}

} // verus!
