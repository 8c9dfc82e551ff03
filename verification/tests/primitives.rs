//! The building blocks on their own: the bounds-checked guest region, the
//! single-write result slot, and the deadline budget.

use quickjs_sandbox::errors::ExecutionError;
use quickjs_sandbox::time::EpochBudget;
use quickjs_sandbox::{GuestRegion, Outcome, ResultSlot};

#[test]
fn region_starts_zero_filled() {
    let region = GuestRegion::new(16);
    assert_eq!(region.capacity(), 16);
    assert_eq!(region.read_at(0, 16).unwrap(), vec![0u8; 16]);
}

#[test]
fn region_write_read_roundtrip() {
    let mut region = GuestRegion::new(32);
    assert!(region.write_at(10, b"payload").is_ok());
    assert_eq!(region.read_at(10, 7).unwrap().as_slice(), b"payload");
    // Neighbouring bytes stay zero.
    assert_eq!(region.read_at(9, 1).unwrap(), vec![0u8]);
    assert_eq!(region.read_at(17, 1).unwrap(), vec![0u8]);
}

#[test]
fn region_write_out_of_range_changes_nothing() {
    let mut region = GuestRegion::new(8);
    assert!(region.write_at(0, b"12345").is_ok());
    let reply = region.write_at(6, b"12345");
    assert!(matches!(reply, Err(ExecutionError::GuestFault(_))));
    assert_eq!(region.read_at(0, 8).unwrap().as_slice(), b"12345\0\0\0");
}

#[test]
fn region_read_out_of_range_fails() {
    let region = GuestRegion::new(8);
    assert!(matches!(
        region.read_at(4, 5),
        Err(ExecutionError::GuestFault(_))
    ));
    // Offset arithmetic near the end does not wrap.
    assert!(region.read_at(usize::MAX, 1).is_err());
}

#[test]
fn region_boundary_write_is_allowed() {
    let mut region = GuestRegion::new(8);
    assert!(region.write_at(3, b"12345").is_ok());
    assert_eq!(region.read_at(3, 5).unwrap().as_slice(), b"12345");
}

#[test]
fn slot_accepts_exactly_one_write() {
    let mut slot = ResultSlot::new();
    assert!(!slot.is_written());
    assert!(slot.write(Outcome::Success("first".to_string())).is_ok());
    assert!(slot.is_written());
    // The second write is refused and hands the outcome back.
    match slot.write(Outcome::Success("second".to_string())) {
        Err(Outcome::Success(text)) => assert_eq!(text, "second"),
        other => panic!("expected the second outcome back, got {:?}", other),
    }
    // The first write is what the slot holds.
    assert_eq!(slot.take(), Some(Outcome::Success("first".to_string())));
}

#[test]
fn slot_empty_take_is_none() {
    let slot = ResultSlot::new();
    assert_eq!(slot.take(), None);
}

#[test]
fn budget_admits_exactly_its_ticks() {
    let mut budget = EpochBudget::new(3);
    assert_eq!(budget.on_deadline(), Ok(1));
    assert_eq!(budget.on_deadline(), Ok(1));
    assert_eq!(budget.on_deadline(), Ok(1));
    assert!(!budget.was_exhausted());
    assert!(budget.on_deadline().is_err());
    assert!(budget.was_exhausted());
    // Once exhausted, every further checkpoint still aborts.
    assert!(budget.on_deadline().is_err());
}

#[test]
fn zero_budget_aborts_at_once() {
    let mut budget = EpochBudget::new(0);
    assert!(budget.on_deadline().is_err());
    assert!(budget.was_exhausted());
}
