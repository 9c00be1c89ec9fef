//! Platform diagnostics for latency-sensitive software: a probe that judges
//! whether a filesystem genuinely services asynchronous direct I/O, and a
//! process-wide memory-barrier facility with a native kernel strategy and a
//! page-eviction fallback.
//!
//! The kernel calls themselves (file setup, async submission, the barrier and
//! advisory syscalls) are performed by an embedding application; this crate
//! holds the verified decision logic: the probe's step-by-step protocol, the
//! context-switch accounting and threshold verdict, capability resolution for
//! the barrier syscall, and strategy selection between the native and
//! fallback paths.

pub mod fsqual;
pub mod spinlock;
pub mod systemwide_memory_barrier;
