//! The shared enums of the MyFans contracts and their stable codes.
use vstd::prelude::*;

verus! {

/// Lifecycle state of a fan's subscription to a creator.
#[derive(Clone, Copy, Debug, PartialEq, Eq, Structural)]
pub enum SubscriptionStatus {
    Pending,
    Active,
    Cancelled,
    Expired,
}

/// Whether a piece of content is free or must be bought.
#[derive(Clone, Copy, Debug, PartialEq, Eq, Structural)]
pub enum ContentType {
    Free,
    Paid,
}

/// The error type shared by the MyFans contracts.
///
/// Each variant carries a stable code (see `MyfansError::stable_code`).
#[derive(Clone, Copy, Debug, PartialEq, Eq, Structural)]
pub enum MyfansError {
    AlreadyInitialized,
    NotInitialized,
    NotAuthorized,
    InsufficientBalance,
    InvalidFeeBps,
    RateLimited,
    AlreadyRegistered,
    NotLiked,
    Paused,
    ContentPriceNotSet,
    SubscriptionNotFound,
    SubscriptionExpired,
    AdminNotInitialized,
    NegativeMinBalance,
    MinBalanceViolation,
}

impl MyfansError {
    /// The stable numeric code of each error variant.
    pub open spec fn stable_code(self) -> u32 {
        match self {
            MyfansError::AlreadyInitialized => 1,
            MyfansError::NotInitialized => 2,
            MyfansError::NotAuthorized => 3,
            MyfansError::InsufficientBalance => 4,
            MyfansError::InvalidFeeBps => 5,
            MyfansError::RateLimited => 6,
            MyfansError::AlreadyRegistered => 7,
            MyfansError::NotLiked => 8,
            MyfansError::Paused => 9,
            MyfansError::ContentPriceNotSet => 101,
            MyfansError::SubscriptionNotFound => 102,
            MyfansError::SubscriptionExpired => 103,
            MyfansError::AdminNotInitialized => 104,
            MyfansError::NegativeMinBalance => 105,
            MyfansError::MinBalanceViolation => 106,
        }
    }
}

impl ContentType {
    /// The stable numeric code of each content type.
    pub open spec fn stable_code(self) -> u32 {
        match self {
            ContentType::Free => 0,
            ContentType::Paid => 1,
        }
    }
}

/// Two error variants with the same code are the same variant: a code
/// identifies its error.
pub proof fn lemma_error_code_injective(a: MyfansError, b: MyfansError)
    ensures
        a.stable_code() == b.stable_code() ==> a == b,
{
}

/// Two content types with the same code are the same type.
pub proof fn lemma_content_code_injective(a: ContentType, b: ContentType)
    ensures
        a.stable_code() == b.stable_code() ==> a == b,
{
}

} // verus!
