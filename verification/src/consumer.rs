//! The read-only entry points of the test-consumer contract.
use vstd::prelude::*;

use crate::types::{ContentType, MyfansError, SubscriptionStatus};

verus! {

/// A contract that consumes the shared MyFans types, to show that they can
/// be imported and that their codes stay stable.
pub struct TestConsumer;

impl TestConsumer {
    /// Returns true only when `status` is `Active`.
    pub fn is_active(status: SubscriptionStatus) -> (active: bool)
        ensures
            active <==> status == SubscriptionStatus::Active,
    {
        status == SubscriptionStatus::Active
    }

    /// Returns the stable numeric code of a `MyfansError` variant.
    pub fn error_code(err: MyfansError) -> (code: u32)
        ensures
            code == err.stable_code(),
    {
        match err {
            MyfansError::AlreadyInitialized => 1,
            MyfansError::NotInitialized => 2,
            MyfansError::NotAuthorized => 3,
            MyfansError::InsufficientBalance => 4,
            MyfansError::InvalidFeeBps => 5,
            MyfansError::RateLimited => 6,
            MyfansError::AlreadyRegistered => 7,
            MyfansError::NotLiked => 8,
            MyfansError::Paused => 9,
            MyfansError::ContentPriceNotSet => 101,
            MyfansError::SubscriptionNotFound => 102,
            MyfansError::SubscriptionExpired => 103,
            MyfansError::AdminNotInitialized => 104,
            MyfansError::NegativeMinBalance => 105,
            MyfansError::MinBalanceViolation => 106,
        }
    }

    /// Returns the stable numeric code of a `ContentType` variant.
    pub fn content_code(ct: ContentType) -> (code: u32)
        ensures
            code == ct.stable_code(),
    {
        match ct {
            ContentType::Free => 0,
            ContentType::Paid => 1,
        }
    }
}

} // verus!
