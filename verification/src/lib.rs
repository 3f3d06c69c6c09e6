//! Verified core of the MyFans test-consumer contract: the shared status,
//! error and content-type enums together with the stable numeric codes that
//! other contracts and clients rely on, and the three read-only entry points
//! that expose them.
pub mod types;
pub mod consumer;

pub use types::{ContentType, MyfansError, SubscriptionStatus};
pub use consumer::TestConsumer;
