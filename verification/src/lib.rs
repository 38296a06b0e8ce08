//! A userland runtime for a capability-based embedded kernel.
//!
//! Application code registers interest in asynchronous kernel events
//! (`syscalls::subscribe`), shares memory buffers with the kernel
//! (`syscalls::allow`), issues synchronous requests (`syscalls::command`),
//! and consumes events through a polling event bridge (`events`).
//!
//! The kernel side of the boundary is represented by [`kernel::Kernel`], an
//! observable kernel double: it logs every trap the runtime issues and answers
//! each with a scripted return code.  Every contract in this crate is stated
//! over that log, so the lifetime rules of the runtime — a subscription is
//! revoked exactly once, a shared buffer is handed back only after its grant
//! is revoked — are proved, not just tested.

pub mod adc;
pub mod buttons;
pub mod callback;
pub mod console;
pub mod events;
pub mod kernel;
pub mod result;
pub mod shared_memory;
pub mod simple_ble;
pub mod syscalls;
