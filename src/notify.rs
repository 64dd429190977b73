//! The payloads that the notification service accepts.

use vstd::prelude::*;

verus! {

/// A plain push notification to one Apple device.
pub struct ApnsNotificationRequest {
    pub device_token: String,
    pub content: String,
}

/// An e-mail to send.
pub struct MailRequest {
    pub from_address: String,
    pub to_address: String,
    pub title: String,
    pub content: String,
}

} // verus!
