use esp32_shenanigans::claim::{ClaimKind, ClaimRegistry};
use esp32_shenanigans::error::MotorError;

#[test]
fn new_registry_is_unclaimed() {
    let registry = ClaimRegistry::new();
    assert_eq!(registry.holder(), None);
}

#[test]
fn single_first_then_everything_fails() {
    let mut registry = ClaimRegistry::new();
    assert_eq!(registry.claim(ClaimKind::Single), Ok(()));
    assert_eq!(registry.holder(), Some(ClaimKind::Single));
    assert_eq!(registry.claim(ClaimKind::Single), Err(MotorError::AlreadyClaimed));
    assert_eq!(registry.claim(ClaimKind::Dual), Err(MotorError::AlreadyClaimed));
    assert_eq!(registry.holder(), Some(ClaimKind::Single));
}

#[test]
fn dual_first_then_everything_fails() {
    let mut registry = ClaimRegistry::new();
    assert_eq!(registry.claim(ClaimKind::Dual), Ok(()));
    assert_eq!(registry.holder(), Some(ClaimKind::Dual));
    assert_eq!(registry.claim(ClaimKind::Dual), Err(MotorError::AlreadyClaimed));
    assert_eq!(registry.claim(ClaimKind::Single), Err(MotorError::AlreadyClaimed));
    assert_eq!(registry.holder(), Some(ClaimKind::Dual));
}

#[test]
fn a_claim_is_never_released() {
    let mut registry = ClaimRegistry::new();
    assert_eq!(registry.claim(ClaimKind::Single), Ok(()));
    for round in 0..100 {
        let kind = if round % 2 == 0 { ClaimKind::Dual } else { ClaimKind::Single };
        assert_eq!(registry.claim(kind), Err(MotorError::AlreadyClaimed));
        assert_eq!(registry.holder(), Some(ClaimKind::Single));
    }
}

#[test]
fn registries_are_independent() {
    let mut first = ClaimRegistry::new();
    let mut second = ClaimRegistry::new();
    assert_eq!(first.claim(ClaimKind::Single), Ok(()));
    assert_eq!(second.holder(), None);
    assert_eq!(second.claim(ClaimKind::Dual), Ok(()));
    assert_eq!(first.holder(), Some(ClaimKind::Single));
}
