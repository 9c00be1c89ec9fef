//! Process-wide memory-barrier facility.
//!
//! The facility forces every thread of the calling process across a full
//! memory barrier without each thread's active cooperation. The preferred
//! strategy is the kernel's own barrier syscall: its command set is queried
//! once per process, the private-expedited pair is registered, and every
//! later call issues the expedited barrier command. When the native facility
//! is absent, a fallback evicts a thread-local anonymous page with a
//! discard-contents advisory: invalidating the page's mapping broadcasts an
//! inter-processor interrupt whose handling executes a memory barrier on
//! every core. On architectures whose hardware can broadcast TLB
//! invalidations without routing through interrupt handling, that trick is
//! unsound and must stay disabled.
//!
//! The syscalls are performed by the embedding application; this module holds
//! the verified decisions: how the queried command set and the registration
//! outcome resolve the process-wide capability, that the resolved capability
//! never changes again, which strategy a call uses, and how each strategy's
//! outcome becomes the caller's result.

use vstd::prelude::*;

verus! {

/// Command that asks the kernel which barrier commands it supports.
pub const MEMBARRIER_CMD_QUERY: i64 = 0;

/// Command that executes an expedited barrier across the calling process.
pub const MEMBARRIER_CMD_PRIVATE_EXPEDITED: i64 = 1 << 3;

/// Command that registers the calling process for the expedited barrier.
pub const MEMBARRIER_CMD_REGISTER_PRIVATE_EXPEDITED: i64 = 1 << 4;

/// Whether the native barrier facility is usable: computed at most once per
/// process, then never re-evaluated.
#[derive(Clone, Copy, Debug, PartialEq, Eq, Structural)]
pub enum BarrierCapability {
    /// No resolution attempt has completed yet.
    Unknown,
    /// The private-expedited pair is supported and registration succeeded.
    Supported,
    /// The command set lacks the pair, or registration failed.
    Unsupported,
}

/// The outcome of one kernel call made while resolving the capability.
#[derive(Clone, Copy, Debug, PartialEq, Eq, Structural)]
pub enum ResolutionEvent {
    /// What the command-set query returned.
    QueryReturned(i64),
    /// What the registration command returned.
    RegisterReturned(i64),
}

/// Which strategy one barrier call uses.
#[derive(Clone, Copy, Debug, PartialEq, Eq, Structural)]
pub enum BarrierAction {
    /// Issue the expedited barrier command; the kernel guarantees every
    /// thread of the process executes a memory barrier before it returns.
    RunNative,
    /// Write one byte into the calling thread's barrier page, then issue the
    /// discard-contents advisory against it.
    RunFallback,
    /// Neither strategy is sound here: report failure.
    Unavailable,
}

/// How one barrier call ends when it does not succeed.
#[derive(Clone, Copy, Debug, PartialEq, Eq, Structural)]
pub enum BarrierError {
    /// The platform offers no sound barrier strategy: the native facility is
    /// absent and the fallback is disabled on this architecture.
    CapabilityInsufficientFailure,
    /// The fallback's advisory syscall failed; carries the OS error code.
    OSLevelFailure(i32),
}

/// Whether a queried command set grants the native strategy: the query must
/// have succeeded and must report both the private-expedited barrier command
/// and its registration command.
pub open spec fn native_commands_present(query_ret: i64) -> bool {
    &&& query_ret >= 0
    &&& query_ret & MEMBARRIER_CMD_PRIVATE_EXPEDITED != 0
    &&& query_ret & MEMBARRIER_CMD_REGISTER_PRIVATE_EXPEDITED != 0
}

/// How one resolution outcome advances the capability. A capability that is
/// already resolved never changes again, whatever else is reported.
pub open spec fn capability_step(cap: BarrierCapability, e: ResolutionEvent) -> BarrierCapability {
    match (cap, e) {
        (BarrierCapability::Unknown, ResolutionEvent::QueryReturned(q)) => {
            if native_commands_present(q) {
                BarrierCapability::Unknown
            } else {
                BarrierCapability::Unsupported
            }
        },
        (BarrierCapability::Unknown, ResolutionEvent::RegisterReturned(r)) => {
            if r >= 0 {
                BarrierCapability::Supported
            } else {
                BarrierCapability::Unsupported
            }
        },
        (resolved, _) => resolved,
    }
}

/// The capability after a whole sequence of resolution outcomes.
pub open spec fn capability_run(cap: BarrierCapability, es: Seq<ResolutionEvent>) -> BarrierCapability
    decreases es.len(),
{
    if es.len() == 0 {
        cap
    } else {
        capability_step(capability_run(cap, es.drop_last()), es.last())
    }
}

/// Once the capability is resolved, no further resolution outcome — however
/// long the sequence, whatever each call returned — changes it: every caller
/// observes the single resolved value.
pub proof fn lemma_resolved_capability_is_stable(
    cap: BarrierCapability,
    es: Seq<ResolutionEvent>,
)
    requires
        !(cap is Unknown),
    ensures
        capability_run(cap, es) == cap,
    decreases es.len(),
{
    if es.len() > 0 {
        lemma_resolved_capability_is_stable(cap, es.drop_last());
    }
}

/// The process-wide barrier facility: the memoized capability of the native
/// strategy, and whether this architecture permits the fallback trick.
pub struct MembarrierFacility {
    /// Whether the native barrier facility is usable.
    pub capability: BarrierCapability,
    /// Whether the page-eviction fallback is sound on this architecture.
    pub fallback_permitted: bool,
}

impl MembarrierFacility {
    /// A facility whose capability has not been resolved yet.
    pub fn new(fallback_permitted: bool) -> (r: MembarrierFacility)
        ensures
            r.capability is Unknown,
            r.fallback_permitted == fallback_permitted,
    {
        MembarrierFacility { capability: BarrierCapability::Unknown, fallback_permitted }
    }

    /// Whether a resolution attempt is still needed. Resolution runs at most
    /// once per process; a caller that sees `false` uses the memoized value.
    pub fn needs_resolution(&self) -> (r: bool)
        ensures
            r == (self.capability is Unknown),
    {
        matches!(self.capability, BarrierCapability::Unknown)
    }

    /// Records what the command-set query returned. Returns whether the
    /// caller should go on to issue the registration command; when the
    /// command set does not grant the native strategy, the capability
    /// resolves to unsupported instead. On a facility already resolved,
    /// nothing changes and no registration is requested.
    pub fn on_query(&mut self, query_ret: i64) -> (register_needed: bool)
        ensures
            final(self).fallback_permitted == old(self).fallback_permitted,
            final(self).capability == capability_step(
                old(self).capability,
                ResolutionEvent::QueryReturned(query_ret),
            ),
            register_needed == (old(self).capability is Unknown
                && native_commands_present(query_ret)),
    {
        match self.capability {
            BarrierCapability::Unknown => {
                if query_ret >= 0
                    && query_ret & MEMBARRIER_CMD_PRIVATE_EXPEDITED != 0
                    && query_ret & MEMBARRIER_CMD_REGISTER_PRIVATE_EXPEDITED != 0 {
                    true
                } else {
                    self.capability = BarrierCapability::Unsupported;
                    false
                }
            },
            _ => false,
        }
    }

    /// Records what the registration command returned, resolving the
    /// capability: supported exactly when registration succeeded. On a
    /// facility already resolved, nothing changes.
    pub fn on_register(&mut self, register_ret: i64)
        ensures
            final(self).fallback_permitted == old(self).fallback_permitted,
            final(self).capability == capability_step(
                old(self).capability,
                ResolutionEvent::RegisterReturned(register_ret),
            ),
    {
        match self.capability {
            BarrierCapability::Unknown => {
                self.capability = if register_ret >= 0 {
                    BarrierCapability::Supported
                } else {
                    BarrierCapability::Unsupported
                };
            },
            _ => {},
        }
    }

    /// Which strategy a barrier call uses, once the capability is resolved:
    /// the native path whenever it is supported — never the fallback — and
    /// otherwise the fallback only where this architecture permits it.
    pub fn barrier_action(&self) -> (r: BarrierAction)
        requires
            !(self.capability is Unknown),
        ensures
            self.capability is Supported ==> r is RunNative,
            self.capability is Unsupported && self.fallback_permitted ==> r is RunFallback,
            self.capability is Unsupported && !self.fallback_permitted ==> r is Unavailable,
    {
        match self.capability {
            BarrierCapability::Supported => BarrierAction::RunNative,
            _ => {
                if self.fallback_permitted {
                    BarrierAction::RunFallback
                } else {
                    BarrierAction::Unavailable
                }
            },
        }
    }
}

/// The result of one fallback barrier: the advisory syscall's return value
/// decides, and a failure surfaces the OS error rather than swallowing it.
pub fn fallback_outcome(advise_ret: i32, os_error: i32) -> (r: Result<(), BarrierError>)
    ensures
        advise_ret == 0 ==> r == Ok::<(), BarrierError>(()),
        advise_ret != 0 ==> r == Err::<(), BarrierError>(BarrierError::OSLevelFailure(os_error)),
{
    if advise_ret == 0 {
        Ok(())
    } else {
        Err(BarrierError::OSLevelFailure(os_error))
    }
}

/// The outcome of one barrier call, for a resolved facility. `fallback` is
/// the fallback advisory's return value and the accompanying OS error code,
/// present exactly when the facility's action is the fallback: with the
/// native facility supported the call succeeds through the native path
/// alone; with it unsupported, the fallback's advisory decides where this
/// architecture permits the trick, and elsewhere the call reports that no
/// sound strategy exists.
pub fn systemwide_memory_barrier(
    facility: &MembarrierFacility,
    fallback: Option<(i32, i32)>,
) -> (r: Result<(), BarrierError>)
    requires
        !(facility.capability is Unknown),
        (facility.capability is Unsupported && facility.fallback_permitted) <==> fallback is Some,
    ensures
        facility.capability is Supported ==> r == Ok::<(), BarrierError>(()),
        facility.capability is Unsupported && !facility.fallback_permitted ==> r == Err::<
            (),
            BarrierError,
        >(BarrierError::CapabilityInsufficientFailure),
        facility.capability is Unsupported && facility.fallback_permitted ==> {
            &&& fallback.unwrap().0 == 0 ==> r == Ok::<(), BarrierError>(())
            &&& fallback.unwrap().0 != 0 ==> r == Err::<(), BarrierError>(
                BarrierError::OSLevelFailure(fallback.unwrap().1),
            )
        },
{
    match facility.capability {
        BarrierCapability::Supported => Ok(()),
        _ => {
            match fallback {
                Some((advise_ret, os_error)) => fallback_outcome(advise_ret, os_error),
                None => Err(BarrierError::CapabilityInsufficientFailure),
            }
        },
    }
}

/// The best-effort form of one barrier call, for a resolved facility: true
/// exactly when some sound strategy succeeded. `fallback_advise_ret` is the
/// fallback advisory's return value, present exactly when the facility's
/// action is the fallback.
pub fn try_systemwide_memory_barrier(
    facility: &MembarrierFacility,
    fallback_advise_ret: Option<i32>,
) -> (r: bool)
    requires
        !(facility.capability is Unknown),
        (facility.capability is Unsupported && facility.fallback_permitted)
            <==> fallback_advise_ret is Some,
    ensures
        r == (facility.capability is Supported || (facility.capability is Unsupported
            && facility.fallback_permitted && fallback_advise_ret == Some(0i32))),
{
    match facility.capability {
        BarrierCapability::Supported => true,
        _ => {
            match fallback_advise_ret {
                Some(advise_ret) => advise_ret == 0,
                None => false,
            }
        },
    }
}

} // verus!
