//! Tests for the fault record: set/clear asymmetry and the immortal
//! cumulative count.

use cw_keyer::fault::{FaultCode, FaultState};

#[test]
fn test_fault_state_basic() {
    let mut fault = FaultState::new();

    assert!(!fault.is_active());
    assert_eq!(fault.code(), FaultCode::NoFault);
    assert_eq!(fault.count(), 0);

    fault.set(FaultCode::LatencyExceeded, 42);

    assert!(fault.is_active());
    assert_eq!(fault.code(), FaultCode::LatencyExceeded);
    assert_eq!(fault.data(), 42);
    assert_eq!(fault.count(), 1);

    fault.clear();

    assert!(!fault.is_active());
    assert_eq!(fault.count(), 1); // Count preserved
}

#[test]
fn test_fault_count_accumulates() {
    let mut fault = FaultState::new();

    fault.set(FaultCode::Overrun, 1);
    fault.clear();
    fault.set(FaultCode::LatencyExceeded, 2);
    fault.clear();
    fault.set(FaultCode::Overrun, 3);

    assert_eq!(fault.count(), 3);
}

#[test]
fn test_fault_code_from_u8() {
    assert_eq!(FaultCode::from_u8(0), FaultCode::NoFault);
    assert_eq!(FaultCode::from_u8(1), FaultCode::Overrun);
    assert_eq!(FaultCode::from_u8(2), FaultCode::LatencyExceeded);
    assert_eq!(FaultCode::from_u8(3), FaultCode::ProducerOverrun);
    assert_eq!(FaultCode::from_u8(4), FaultCode::HardwareFault);
    assert_eq!(FaultCode::from_u8(200), FaultCode::NoFault);
}

#[test]
fn test_fault_snapshot() {
    let mut fault = FaultState::new();
    fault.set(FaultCode::HardwareFault, 9);
    let snap = fault.snapshot();
    assert!(snap.active);
    assert_eq!(snap.code, FaultCode::HardwareFault);
    assert_eq!(snap.data, 9);
    assert_eq!(snap.count, 1);

    fault.clear();
    let snap = fault.snapshot();
    assert!(!snap.active);
    // Code and data stay readable (stale) until the next set.
    assert_eq!(snap.code, FaultCode::HardwareFault);
    assert_eq!(snap.data, 9);
    assert_eq!(snap.count, 1);
}
