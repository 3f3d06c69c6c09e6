use test_consumer::{ContentType, MyfansError, SubscriptionStatus, TestConsumer};

// ── SubscriptionStatus ────────────────────────────────────────────────

#[test]
fn active_is_active() {
    assert!(TestConsumer::is_active(SubscriptionStatus::Active));
}

#[test]
fn non_active_statuses_are_not_active() {
    assert!(!TestConsumer::is_active(SubscriptionStatus::Pending));
    assert!(!TestConsumer::is_active(SubscriptionStatus::Cancelled));
    assert!(!TestConsumer::is_active(SubscriptionStatus::Expired));
}

// ── MyfansError codes ─────────────────────────────────────────────────

#[test]
fn error_codes_are_stable() {
    assert_eq!(TestConsumer::error_code(MyfansError::AlreadyInitialized), 1);
    assert_eq!(TestConsumer::error_code(MyfansError::NotInitialized), 2);
    assert_eq!(TestConsumer::error_code(MyfansError::NotAuthorized), 3);
    assert_eq!(TestConsumer::error_code(MyfansError::InsufficientBalance), 4);
    assert_eq!(TestConsumer::error_code(MyfansError::InvalidFeeBps), 5);
    assert_eq!(TestConsumer::error_code(MyfansError::RateLimited), 6);
    assert_eq!(TestConsumer::error_code(MyfansError::AlreadyRegistered), 7);
    assert_eq!(TestConsumer::error_code(MyfansError::NotLiked), 8);
    assert_eq!(TestConsumer::error_code(MyfansError::Paused), 9);
    assert_eq!(TestConsumer::error_code(MyfansError::ContentPriceNotSet), 101);
    assert_eq!(TestConsumer::error_code(MyfansError::SubscriptionNotFound), 102);
    assert_eq!(TestConsumer::error_code(MyfansError::SubscriptionExpired), 103);
    assert_eq!(TestConsumer::error_code(MyfansError::AdminNotInitialized), 104);
    assert_eq!(TestConsumer::error_code(MyfansError::NegativeMinBalance), 105);
    assert_eq!(TestConsumer::error_code(MyfansError::MinBalanceViolation), 106);
}

// ── ContentType codes ─────────────────────────────────────────────────

#[test]
fn content_type_codes_are_stable() {
    assert_eq!(TestConsumer::content_code(ContentType::Free), 0);
    assert_eq!(TestConsumer::content_code(ContentType::Paid), 1);
}
