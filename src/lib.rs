//! Verified core of a binding to the macOS user notification center.
//!
//! The library holds the notification value and its builder, the decoding of
//! activation responses, the selection logic for deleting delivered
//! notifications, and the process-wide delegate registration with its
//! ownership-checked teardown. The calls into the operating system itself are
//! made by the surrounding application layer, which hands plain values in.

pub mod delegate;
pub mod notification;
pub mod notification_response;
pub mod provider;

pub use crate::delegate::DelegateCenter;
pub use crate::notification::{DeliveryMode, Notification, NotificationError};
pub use crate::notification_response::{ActivationType, NotificationResponse};
pub use crate::provider::{DeliveredRecord, NotificationProvider};
