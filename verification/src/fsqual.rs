//! Asynchronous-I/O quality probe.
//!
//! The probe decides whether a filesystem genuinely services asynchronous
//! direct I/O. The embedding application opens a temporary file with the
//! direct-I/O flag, extends it, sets up a kernel async-I/O context of depth
//! one, and then submits a bounded sequence of timed writes, sampling the
//! calling thread's voluntary-context-switch counter immediately before and
//! after each submission. A path that cannot complete writes asynchronously
//! blocks the submitting thread, which the scheduler records as a voluntary
//! context switch; summing that signal over many submissions separates truly
//! asynchronous filesystems (near-zero switches) from ones that silently fall
//! back to blocking I/O.
//!
//! [`AioQualityProbe`] is the verified core of that protocol: a state machine
//! the application drives by reporting the outcome of each kernel call. The
//! machine fixes the order of the steps, maps each failure to its diagnostic,
//! accumulates the context-switch deltas, and renders the final verdict.

use vstd::prelude::*;

verus! {

/// Number of bytes in each direct-I/O write payload.
pub const BLOCK_SIZE: u64 = 4096;

/// Number of write submissions timed by one probe run.
pub const NUM_IO_SUBMITS: u64 = 1000;

/// Which resource-setup step of the probe failed.
#[derive(Clone, Copy, Debug, PartialEq, Eq, Structural)]
pub enum SetupStage {
    /// Opening the temporary file for direct I/O.
    Open,
    /// Extending the temporary file to its working length.
    Extend,
    /// Initializing the kernel async-I/O context.
    ContextInit,
}

/// Outcome of a probe run that did not end in success.
#[derive(Clone, Copy, Debug, PartialEq, Eq, Structural)]
pub enum ProbeError {
    /// Opening, extending, or context setup failed before any I/O was timed.
    ResourceSetupFailure(SetupStage),
    /// The kernel rejected an I/O submission.
    SubmissionFailure,
    /// The wait for a completion event itself failed.
    CompletionFailure,
    /// Every step succeeded, but the accumulated context-switch total
    /// exceeded the threshold: the filesystem degrades to blocking I/O.
    CapabilityInsufficientFailure,
}

impl ProbeError {
    /// The diagnostic message for this outcome.
    pub open spec fn message_spec(self) -> Seq<char> {
        match self {
            ProbeError::ResourceSetupFailure(SetupStage::Open) => "Failed to open temp file."@,
            ProbeError::ResourceSetupFailure(SetupStage::Extend) => "Failed to call ftruncate(2)."@,
            ProbeError::ResourceSetupFailure(SetupStage::ContextInit) => "Failed to init an AIO context."@,
            ProbeError::SubmissionFailure => "Failed to call iosubmit(2)."@,
            ProbeError::CompletionFailure => "Failed to call iogetevents(2)."@,
            ProbeError::CapabilityInsufficientFailure => "This filesystem doesn't have good AIO support."@,
        }
    }

    /// Renders the diagnostic message for this outcome.
    pub fn message(&self) -> (r: &'static str)
        ensures
            r@ == self.message_spec(),
    {
        match self {
            ProbeError::ResourceSetupFailure(SetupStage::Open) => "Failed to open temp file.",
            ProbeError::ResourceSetupFailure(SetupStage::Extend) => "Failed to call ftruncate(2).",
            ProbeError::ResourceSetupFailure(SetupStage::ContextInit) => "Failed to init an AIO context.",
            ProbeError::SubmissionFailure => "Failed to call iosubmit(2).",
            ProbeError::CompletionFailure => "Failed to call iogetevents(2).",
            ProbeError::CapabilityInsufficientFailure => "This filesystem doesn't have good AIO support.",
        }
    }
}

/// Where a probe run stands in its protocol.
#[derive(Clone, Copy, Debug, PartialEq, Eq, Structural)]
pub enum ProbePhase {
    /// The temporary file has not been opened yet.
    NeedOpen,
    /// The file is open and must be extended to its working length.
    NeedExtend,
    /// The file has its working length; the async-I/O context is next.
    NeedContext,
    /// Setup is complete and fewer than [`NUM_IO_SUBMITS`] writes have been
    /// submitted: the next step is a timed submission.
    Running,
    /// A write was submitted; the run is blocked on one completion event.
    AwaitingCompletion,
    /// All writes were submitted and completed; only the verdict is left.
    Done,
    /// A kernel call failed; the run is over.
    Failed,
}

/// The outcome of one kernel call, as the application reports it back.
#[derive(Clone, Copy, Debug, PartialEq, Eq, Structural)]
pub enum ProbeEvent {
    /// Whether opening the temporary file succeeded.
    OpenReturned(bool),
    /// Whether extending the file to its working length succeeded.
    ExtendReturned(bool),
    /// Whether async-I/O context setup succeeded.
    ContextReturned(bool),
    /// Whether an I/O submission was accepted.
    SubmitReturned(bool),
    /// Whether the wait for one completion event succeeded.
    CompletionReturned(bool),
}

/// The abstract state of a probe run: its phase and how many writes have been
/// submitted.
pub struct ProbeState {
    /// Where the run stands in its protocol.
    pub phase: ProbePhase,
    /// Number of writes submitted so far.
    pub issued: int,
}

/// The state a probe run starts from.
pub open spec fn initial_probe_state() -> ProbeState {
    ProbeState { phase: ProbePhase::NeedOpen, issued: 0 }
}

/// The probe protocol's transition relation: how one reported kernel-call
/// outcome advances the abstract state. An event that does not belong to the
/// current phase leaves the state unchanged.
pub open spec fn probe_step(s: ProbeState, e: ProbeEvent) -> ProbeState {
    match (s.phase, e) {
        (ProbePhase::NeedOpen, ProbeEvent::OpenReturned(ok)) => ProbeState {
            phase: if ok { ProbePhase::NeedExtend } else { ProbePhase::Failed },
            ..s
        },
        (ProbePhase::NeedExtend, ProbeEvent::ExtendReturned(ok)) => ProbeState {
            phase: if ok { ProbePhase::NeedContext } else { ProbePhase::Failed },
            ..s
        },
        (ProbePhase::NeedContext, ProbeEvent::ContextReturned(ok)) => ProbeState {
            phase: if ok { ProbePhase::Running } else { ProbePhase::Failed },
            ..s
        },
        (ProbePhase::Running, ProbeEvent::SubmitReturned(ok)) => if ok {
            ProbeState { phase: ProbePhase::AwaitingCompletion, issued: s.issued + 1 }
        } else {
            ProbeState { phase: ProbePhase::Failed, ..s }
        },
        (ProbePhase::AwaitingCompletion, ProbeEvent::CompletionReturned(ok)) => ProbeState {
            phase: if !ok {
                ProbePhase::Failed
            } else if s.issued == NUM_IO_SUBMITS {
                ProbePhase::Done
            } else {
                ProbePhase::Running
            },
            ..s
        },
        _ => s,
    }
}

/// The abstract state after a whole sequence of reported outcomes.
pub open spec fn probe_run(s: ProbeState, es: Seq<ProbeEvent>) -> ProbeState
    decreases es.len(),
{
    if es.len() == 0 {
        s
    } else {
        probe_step(probe_run(s, es.drop_last()), es.last())
    }
}

/// Addition on the context-switch total, pinned at `u64::MAX`.
pub open spec fn sat_add(a: u64, b: u64) -> u64 {
    if a + b > u64::MAX {
        u64::MAX
    } else {
        (a + b) as u64
    }
}

/// The context-switch total accumulated from a sequence of per-submission
/// deltas.
pub open spec fn accumulated_switches(deltas: Seq<u64>) -> u64
    decreases deltas.len(),
{
    if deltas.len() == 0 {
        0
    } else {
        sat_add(accumulated_switches(deltas.drop_last()), deltas.last())
    }
}

/// Whether a context-switch total exceeds the probe's fixed threshold. The
/// threshold lies strictly between zero and one, so an integer total exceeds
/// it exactly when it is positive: success tolerates no voluntary context
/// switch at all across the whole run.
pub open spec fn exceeds_threshold(csws: u64) -> bool {
    csws > 0
}

/// Whether some event in the sequence reports a successful file extension.
pub open spec fn extension_succeeded(es: Seq<ProbeEvent>) -> bool {
    exists|i: int| 0 <= i < es.len() && es[i] == ProbeEvent::ExtendReturned(true)
}

/// Whether a phase lies past the extension step of the protocol.
pub open spec fn past_extension(p: ProbePhase) -> bool {
    ||| p is NeedContext
    ||| p is Running
    ||| p is AwaitingCompletion
    ||| p is Done
}

/// No I/O is submitted before the temporary file has its full working
/// length: in any run from the initial state, until a successful extension to
/// [`AioQualityProbe::required_file_len`] bytes has been reported, the
/// protocol has not passed the extension step and no write has been
/// submitted.
pub proof fn lemma_no_submission_before_extension(es: Seq<ProbeEvent>)
    ensures
        !extension_succeeded(es) ==> {
            &&& !past_extension(probe_run(initial_probe_state(), es).phase)
            &&& probe_run(initial_probe_state(), es).issued == 0
        },
    decreases es.len(),
{
    if es.len() > 0 && !extension_succeeded(es) {
        lemma_no_submission_before_extension(es.drop_last());
        assert(!extension_succeeded(es.drop_last())) by {
            if extension_succeeded(es.drop_last()) {
                let i: int = choose|i: int|
                    0 <= i < es.drop_last().len() && es.drop_last()[i]
                        == ProbeEvent::ExtendReturned(true);
                assert(es[i] == ProbeEvent::ExtendReturned(true));
            }
        }
        assert(es.last() != ProbeEvent::ExtendReturned(true)) by {
            if es.last() == ProbeEvent::ExtendReturned(true) {
                assert(es[es.len() - 1] == ProbeEvent::ExtendReturned(true));
            }
        }
    }
}

/// One probe run, driven by the embedding application: it performs each
/// kernel call the current phase asks for and reports the outcome back, and
/// the machine advances the phase, accumulates the context-switch deltas, and
/// renders the verdict.
pub struct AioQualityProbe {
    /// Where the run stands in its protocol.
    pub phase: ProbePhase,
    /// Number of writes submitted so far.
    pub issued: u64,
    /// Accumulated voluntary-context-switch total across all submissions.
    pub csws: u64,
    /// The per-submission context-switch deltas recorded so far.
    pub deltas: Ghost<Seq<u64>>,
}

impl AioQualityProbe {
    /// The abstract state this run is in.
    pub open spec fn state(self) -> ProbeState {
        ProbeState { phase: self.phase, issued: self.issued as int }
    }

    /// Well-formedness of a probe run: the counters and the recorded deltas
    /// agree, and each phase bounds the submission count.
    pub open spec fn wf(self) -> bool {
        &&& self.issued <= NUM_IO_SUBMITS
        &&& self.deltas@.len() == self.issued
        &&& self.csws == accumulated_switches(self.deltas@)
        &&& (self.phase is NeedOpen || self.phase is NeedExtend || self.phase is NeedContext)
            ==> self.issued == 0
        &&& self.phase is Running ==> self.issued < NUM_IO_SUBMITS
        &&& self.phase is AwaitingCompletion ==> self.issued >= 1
        &&& self.phase is Done ==> self.issued == NUM_IO_SUBMITS
    }

    /// Starts a probe run: nothing opened, nothing submitted, no context
    /// switches recorded.
    pub fn new() -> (r: AioQualityProbe)
        ensures
            r.wf(),
            r.state() == initial_probe_state(),
            r.csws == 0,
            r.deltas@ == Seq::<u64>::empty(),
    {
        AioQualityProbe {
            phase: ProbePhase::NeedOpen,
            issued: 0,
            csws: 0,
            deltas: Ghost(Seq::empty()),
        }
    }

    /// The exact length, in bytes, the temporary file must be extended to
    /// before any I/O is submitted.
    pub fn required_file_len(&self) -> (r: u64)
        ensures
            r == BLOCK_SIZE * NUM_IO_SUBMITS,
    {
        BLOCK_SIZE * NUM_IO_SUBMITS
    }

    /// Records whether opening the temporary file succeeded.
    pub fn on_open(&mut self, ok: bool) -> (r: Result<(), ProbeError>)
        requires
            old(self).wf(),
            old(self).phase is NeedOpen,
        ensures
            final(self).wf(),
            final(self).state() == probe_step(old(self).state(), ProbeEvent::OpenReturned(ok)),
            final(self).csws == old(self).csws,
            final(self).deltas@ == old(self).deltas@,
            ok ==> r is Ok && final(self).phase is NeedExtend,
            !ok ==> r == Err::<(), ProbeError>(ProbeError::ResourceSetupFailure(SetupStage::Open))
                && final(self).phase is Failed,
    {
        if ok {
            self.phase = ProbePhase::NeedExtend;
            Ok(())
        } else {
            self.phase = ProbePhase::Failed;
            Err(ProbeError::ResourceSetupFailure(SetupStage::Open))
        }
    }

    /// Records whether extending the file to [`Self::required_file_len`]
    /// bytes succeeded.
    pub fn on_extend(&mut self, ok: bool) -> (r: Result<(), ProbeError>)
        requires
            old(self).wf(),
            old(self).phase is NeedExtend,
        ensures
            final(self).wf(),
            final(self).state() == probe_step(old(self).state(), ProbeEvent::ExtendReturned(ok)),
            final(self).csws == old(self).csws,
            final(self).deltas@ == old(self).deltas@,
            ok ==> r is Ok && final(self).phase is NeedContext,
            !ok ==> r == Err::<(), ProbeError>(ProbeError::ResourceSetupFailure(SetupStage::Extend))
                && final(self).phase is Failed,
    {
        if ok {
            self.phase = ProbePhase::NeedContext;
            Ok(())
        } else {
            self.phase = ProbePhase::Failed;
            Err(ProbeError::ResourceSetupFailure(SetupStage::Extend))
        }
    }

    /// Records whether setting up the async-I/O context of depth one
    /// succeeded.
    pub fn on_context_init(&mut self, ok: bool) -> (r: Result<(), ProbeError>)
        requires
            old(self).wf(),
            old(self).phase is NeedContext,
        ensures
            final(self).wf(),
            final(self).state() == probe_step(old(self).state(), ProbeEvent::ContextReturned(ok)),
            final(self).csws == old(self).csws,
            final(self).deltas@ == old(self).deltas@,
            ok ==> r is Ok && final(self).phase is Running,
            !ok ==> r == Err::<(), ProbeError>(
                ProbeError::ResourceSetupFailure(SetupStage::ContextInit),
            ) && final(self).phase is Failed,
    {
        if ok {
            self.phase = ProbePhase::Running;
            Ok(())
        } else {
            self.phase = ProbePhase::Failed;
            Err(ProbeError::ResourceSetupFailure(SetupStage::ContextInit))
        }
    }

    /// The byte offset at which the next write is to be submitted.
    pub fn next_offset(&self) -> (r: u64)
        requires
            self.wf(),
            self.phase is Running,
        ensures
            r == self.issued * BLOCK_SIZE,
    {
        self.issued * BLOCK_SIZE
    }

    /// Records a submission the kernel accepted, together with the voluntary
    /// context-switch counter sampled immediately before and immediately
    /// after the submission call. The delta is added to the running total,
    /// pinned at `u64::MAX`.
    pub fn on_submitted(&mut self, before: u64, after: u64)
        requires
            old(self).wf(),
            old(self).phase is Running,
            before <= after,
        ensures
            final(self).wf(),
            final(self).state() == probe_step(
                old(self).state(),
                ProbeEvent::SubmitReturned(true),
            ),
            final(self).phase is AwaitingCompletion,
            final(self).issued == old(self).issued + 1,
            final(self).deltas@ == old(self).deltas@.push((after - before) as u64),
            final(self).csws == sat_add(old(self).csws, (after - before) as u64),
    {
        let delta: u64 = after - before;
        self.csws = if self.csws <= u64::MAX - delta {
            self.csws + delta
        } else {
            u64::MAX
        };
        self.issued = self.issued + 1;
        self.deltas = Ghost(self.deltas@.push(delta));
        self.phase = ProbePhase::AwaitingCompletion;
        proof {
            assert(self.deltas@.drop_last() =~= old(self).deltas@);
        }
    }

    /// Records a submission the kernel rejected: the run is over.
    pub fn on_submit_failed(&mut self) -> (r: Result<(), ProbeError>)
        requires
            old(self).wf(),
            old(self).phase is Running,
        ensures
            final(self).wf(),
            final(self).state() == probe_step(
                old(self).state(),
                ProbeEvent::SubmitReturned(false),
            ),
            final(self).phase is Failed,
            final(self).csws == old(self).csws,
            final(self).deltas@ == old(self).deltas@,
            r == Err::<(), ProbeError>(ProbeError::SubmissionFailure),
    {
        self.phase = ProbePhase::Failed;
        Err(ProbeError::SubmissionFailure)
    }

    /// Records whether the wait for exactly one completion event succeeded.
    /// After the last completion the run is done; otherwise the next timed
    /// submission follows. The wait itself has no timeout: a kernel path
    /// that never completes the request hangs the calling thread
    /// indefinitely, a hazard the probe documents but does not mitigate.
    pub fn on_completion(&mut self, ok: bool) -> (r: Result<(), ProbeError>)
        requires
            old(self).wf(),
            old(self).phase is AwaitingCompletion,
        ensures
            final(self).wf(),
            final(self).state() == probe_step(
                old(self).state(),
                ProbeEvent::CompletionReturned(ok),
            ),
            final(self).csws == old(self).csws,
            final(self).deltas@ == old(self).deltas@,
            final(self).issued == old(self).issued,
            ok && old(self).issued == NUM_IO_SUBMITS ==> r is Ok && final(self).phase is Done,
            ok && old(self).issued < NUM_IO_SUBMITS ==> r is Ok && final(self).phase is Running,
            !ok ==> r == Err::<(), ProbeError>(ProbeError::CompletionFailure)
                && final(self).phase is Failed,
    {
        if !ok {
            self.phase = ProbePhase::Failed;
            Err(ProbeError::CompletionFailure)
        } else if self.issued == NUM_IO_SUBMITS {
            self.phase = ProbePhase::Done;
            Ok(())
        } else {
            self.phase = ProbePhase::Running;
            Ok(())
        }
    }

    /// The verdict of a completed run: success exactly when the accumulated
    /// voluntary-context-switch total stayed below the threshold.
    pub fn evaluate(&self) -> (r: Result<(), ProbeError>)
        requires
            self.wf(),
            self.phase is Done,
        ensures
            !exceeds_threshold(self.csws) ==> r == Ok::<(), ProbeError>(()),
            exceeds_threshold(self.csws) ==> r == Err::<(), ProbeError>(
                ProbeError::CapabilityInsufficientFailure,
            ),
    {
        if self.csws > 0 {
            Err(ProbeError::CapabilityInsufficientFailure)
        } else {
            Ok(())
        }
    }
}

/// A run of all-zero deltas accumulates a zero total.
proof fn lemma_accumulated_switches_all_zero(deltas: Seq<u64>)
    requires
        forall|i: int| 0 <= i < deltas.len() ==> deltas[i] == 0,
    ensures
        accumulated_switches(deltas) == 0,
    decreases deltas.len(),
{
    if deltas.len() > 0 {
        lemma_accumulated_switches_all_zero(deltas.drop_last());
    }
}

/// For any completed run in which no submitted write ever blocked the
/// calling thread — every sampled context-switch delta is zero — the
/// accumulated total is zero and stays below the threshold, so the verdict
/// ([`AioQualityProbe::evaluate`]) is success.
pub proof fn lemma_nonblocking_run_succeeds(p: AioQualityProbe)
    requires
        p.wf(),
        p.phase is Done,
        forall|i: int| 0 <= i < p.deltas@.len() ==> p.deltas@[i] == 0,
    ensures
        p.csws == 0,
        !exceeds_threshold(p.csws),
{
    lemma_accumulated_switches_all_zero(p.deltas@);
}

/// For any completed run in which every submitted write blocked the calling
/// thread — every sampled context-switch delta is at least one — the
/// accumulated total exceeds the threshold, so the verdict
/// ([`AioQualityProbe::evaluate`]) is the capability failure.
pub proof fn lemma_blocking_run_fails(p: AioQualityProbe)
    requires
        p.wf(),
        p.phase is Done,
        forall|i: int| 0 <= i < p.deltas@.len() ==> p.deltas@[i] >= 1,
    ensures
        exceeds_threshold(p.csws),
{
    assert(p.deltas@[p.deltas@.len() - 1] >= 1);
    assert(p.csws == sat_add(
        accumulated_switches(p.deltas@.drop_last()),
        p.deltas@.last(),
    ));
}

} // verus!
