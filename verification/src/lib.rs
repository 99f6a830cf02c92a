//! Verified core of a freestanding C runtime for Linux on x86-64.
//!
//! The library decides and computes; it makes no system call and touches no
//! raw memory. Where an operation needs the operating system, it names the
//! call to make and takes the call's raw result, so that a thin shell around
//! the library can run it on the real machine and a test can run it on
//! values.

pub mod elf;
pub mod errno;
pub mod fd;
pub mod heap;
pub mod interleaving;
pub mod start;
pub mod stdio;
pub mod stdlib;
pub mod string;
pub mod sync;
pub mod syscall;
pub mod tcb;
pub mod text;
pub mod tls;
pub mod types;
