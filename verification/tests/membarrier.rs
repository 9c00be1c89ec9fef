use jellyfish::systemwide_memory_barrier::{
    fallback_outcome, systemwide_memory_barrier, try_systemwide_memory_barrier,
    BarrierAction, BarrierCapability, BarrierError, MembarrierFacility,
    MEMBARRIER_CMD_PRIVATE_EXPEDITED, MEMBARRIER_CMD_QUERY,
    MEMBARRIER_CMD_REGISTER_PRIVATE_EXPEDITED,
};

/// A command set reporting both private-expedited commands, as the kernel
/// query would on a platform with the native facility.
fn full_command_set() -> i64 {
    MEMBARRIER_CMD_PRIVATE_EXPEDITED | MEMBARRIER_CMD_REGISTER_PRIVATE_EXPEDITED
}

#[test]
fn barriers() {
    let mut facility = MembarrierFacility::new(true);
    let register_needed = facility.on_query(full_command_set());
    assert!(register_needed);
    facility.on_register(0);
    let _ = systemwide_memory_barrier(&facility, None);
    let _ = try_systemwide_memory_barrier(&facility, None);
}

#[test]
fn command_constants_match_the_kernel_interface() {
    assert_eq!(MEMBARRIER_CMD_QUERY, 0);
    assert_eq!(MEMBARRIER_CMD_PRIVATE_EXPEDITED, 8);
    assert_eq!(MEMBARRIER_CMD_REGISTER_PRIVATE_EXPEDITED, 16);
}

#[test]
fn native_platform_uses_only_the_native_path() {
    let mut facility = MembarrierFacility::new(true);
    assert!(facility.needs_resolution());
    assert!(facility.on_query(full_command_set()));
    facility.on_register(0);
    assert!(!facility.needs_resolution());
    assert_eq!(facility.capability, BarrierCapability::Supported);
    // The chosen strategy is the native one; the fallback page is never
    // touched, so no fallback outcome accompanies the call.
    assert_eq!(facility.barrier_action(), BarrierAction::RunNative);
    assert!(try_systemwide_memory_barrier(&facility, None));
    assert_eq!(systemwide_memory_barrier(&facility, None), Ok(()));
}

#[test]
fn query_without_both_commands_resolves_to_unsupported() {
    let mut facility = MembarrierFacility::new(true);
    assert!(!facility.on_query(MEMBARRIER_CMD_PRIVATE_EXPEDITED));
    assert_eq!(facility.capability, BarrierCapability::Unsupported);

    let mut facility = MembarrierFacility::new(true);
    assert!(!facility.on_query(MEMBARRIER_CMD_REGISTER_PRIVATE_EXPEDITED));
    assert_eq!(facility.capability, BarrierCapability::Unsupported);
}

#[test]
fn failed_query_resolves_to_unsupported() {
    let mut facility = MembarrierFacility::new(true);
    assert!(!facility.on_query(-1));
    assert_eq!(facility.capability, BarrierCapability::Unsupported);
}

#[test]
fn failed_registration_resolves_to_unsupported() {
    let mut facility = MembarrierFacility::new(true);
    assert!(facility.on_query(full_command_set()));
    facility.on_register(-1);
    assert_eq!(facility.capability, BarrierCapability::Unsupported);
}

#[test]
fn fallback_platform_succeeds_through_the_advisory() {
    let mut facility = MembarrierFacility::new(true);
    facility.on_query(0);
    assert_eq!(facility.capability, BarrierCapability::Unsupported);
    assert_eq!(facility.barrier_action(), BarrierAction::RunFallback);
    assert!(try_systemwide_memory_barrier(&facility, Some(0)));
    assert_eq!(systemwide_memory_barrier(&facility, Some((0, 0))), Ok(()));
}

#[test]
fn failed_advisory_surfaces_the_os_error() {
    let mut facility = MembarrierFacility::new(true);
    facility.on_query(0);
    assert!(!try_systemwide_memory_barrier(&facility, Some(-1)));
    assert_eq!(
        systemwide_memory_barrier(&facility, Some((-1, 12))),
        Err(BarrierError::OSLevelFailure(12))
    );
    assert_eq!(fallback_outcome(-1, 22), Err(BarrierError::OSLevelFailure(22)));
    assert_eq!(fallback_outcome(0, 0), Ok(()));
}

#[test]
fn gated_architecture_never_uses_the_fallback() {
    let mut facility = MembarrierFacility::new(false);
    facility.on_query(0);
    assert_eq!(facility.capability, BarrierCapability::Unsupported);
    assert_eq!(facility.barrier_action(), BarrierAction::Unavailable);
    assert!(!try_systemwide_memory_barrier(&facility, None));
    assert_eq!(
        systemwide_memory_barrier(&facility, None),
        Err(BarrierError::CapabilityInsufficientFailure)
    );
}

#[test]
fn capability_resolves_once_and_stays_resolved() {
    let mut facility = MembarrierFacility::new(true);
    assert!(facility.on_query(full_command_set()));
    facility.on_register(0);
    assert_eq!(facility.capability, BarrierCapability::Supported);
    // Later resolution outcomes — even failing ones — change nothing, and
    // every caller keeps observing the one resolved value.
    assert!(!facility.on_query(-1));
    facility.on_register(-1);
    assert_eq!(facility.capability, BarrierCapability::Supported);
    assert!(try_systemwide_memory_barrier(&facility, None));

    let mut facility = MembarrierFacility::new(true);
    facility.on_query(-1);
    assert_eq!(facility.capability, BarrierCapability::Unsupported);
    assert!(!facility.on_query(full_command_set()));
    facility.on_register(0);
    assert_eq!(facility.capability, BarrierCapability::Unsupported);
}
