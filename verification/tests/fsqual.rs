use jellyfish::fsqual::{
    AioQualityProbe, ProbeError, SetupStage, BLOCK_SIZE, NUM_IO_SUBMITS,
};

/// Drives one full probe run in which every kernel call succeeds and every
/// submission shows the given voluntary-context-switch delta.
fn run_probe(delta_per_submission: u64) -> Result<(), ProbeError> {
    let mut probe = AioQualityProbe::new();
    probe.on_open(true)?;
    probe.on_extend(true)?;
    probe.on_context_init(true)?;
    let mut counter: u64 = 0;
    for _ in 0..NUM_IO_SUBMITS {
        let before = counter;
        counter += delta_per_submission;
        probe.on_submitted(before, counter);
        probe.on_completion(true)?;
    }
    probe.evaluate()
}

#[test]
fn every_submission_blocking_is_a_capability_failure() {
    let result = run_probe(1);
    assert_eq!(result, Err(ProbeError::CapabilityInsufficientFailure));
    assert_eq!(
        result.unwrap_err().message(),
        "This filesystem doesn't have good AIO support."
    );
}

#[test]
fn no_submission_blocking_is_a_success() {
    assert_eq!(run_probe(0), Ok(()));
}

#[test]
fn threshold_is_an_aggregate_not_an_average() {
    // A single voluntary context switch across the whole run already exceeds
    // the fixed threshold, which the total is never normalized against.
    let mut probe = AioQualityProbe::new();
    probe.on_open(true).unwrap();
    probe.on_extend(true).unwrap();
    probe.on_context_init(true).unwrap();
    for i in 0..NUM_IO_SUBMITS {
        if i == 0 {
            probe.on_submitted(7, 8);
        } else {
            probe.on_submitted(8, 8);
        }
        probe.on_completion(true).unwrap();
    }
    assert_eq!(probe.evaluate(), Err(ProbeError::CapabilityInsufficientFailure));
}

#[test]
fn open_failure_is_a_resource_setup_failure() {
    let mut probe = AioQualityProbe::new();
    let result = probe.on_open(false);
    assert_eq!(result, Err(ProbeError::ResourceSetupFailure(SetupStage::Open)));
    assert_eq!(result.unwrap_err().message(), "Failed to open temp file.");
}

#[test]
fn extend_failure_is_a_resource_setup_failure() {
    let mut probe = AioQualityProbe::new();
    probe.on_open(true).unwrap();
    let result = probe.on_extend(false);
    assert_eq!(result, Err(ProbeError::ResourceSetupFailure(SetupStage::Extend)));
    assert_eq!(result.unwrap_err().message(), "Failed to call ftruncate(2).");
}

#[test]
fn context_init_failure_is_a_resource_setup_failure() {
    let mut probe = AioQualityProbe::new();
    probe.on_open(true).unwrap();
    probe.on_extend(true).unwrap();
    let result = probe.on_context_init(false);
    assert_eq!(
        result,
        Err(ProbeError::ResourceSetupFailure(SetupStage::ContextInit))
    );
    assert_eq!(result.unwrap_err().message(), "Failed to init an AIO context.");
}

#[test]
fn rejected_submission_is_a_submission_failure() {
    let mut probe = AioQualityProbe::new();
    probe.on_open(true).unwrap();
    probe.on_extend(true).unwrap();
    probe.on_context_init(true).unwrap();
    let result = probe.on_submit_failed();
    assert_eq!(result, Err(ProbeError::SubmissionFailure));
    assert_eq!(result.unwrap_err().message(), "Failed to call iosubmit(2).");
}

#[test]
fn failed_completion_wait_is_a_completion_failure() {
    let mut probe = AioQualityProbe::new();
    probe.on_open(true).unwrap();
    probe.on_extend(true).unwrap();
    probe.on_context_init(true).unwrap();
    probe.on_submitted(0, 0);
    let result = probe.on_completion(false);
    assert_eq!(result, Err(ProbeError::CompletionFailure));
    assert_eq!(result.unwrap_err().message(), "Failed to call iogetevents(2).");
}

#[test]
fn file_is_extended_to_block_size_times_submit_count() {
    let probe = AioQualityProbe::new();
    assert_eq!(BLOCK_SIZE, 4096);
    assert_eq!(NUM_IO_SUBMITS, 1000);
    assert_eq!(probe.required_file_len(), 4096 * 1000);
}

#[test]
fn each_write_lands_at_its_own_block_offset() {
    let mut probe = AioQualityProbe::new();
    probe.on_open(true).unwrap();
    probe.on_extend(true).unwrap();
    probe.on_context_init(true).unwrap();
    for i in 0..NUM_IO_SUBMITS {
        assert_eq!(probe.next_offset(), i * BLOCK_SIZE);
        probe.on_submitted(0, 0);
        probe.on_completion(true).unwrap();
    }
}
