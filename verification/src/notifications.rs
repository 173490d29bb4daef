//! Desktop notifications: what is shown, and for how long.

use vstd::prelude::*;

verus! {

/// Timeout, in seconds, of notifications shown without an explicit one.
pub const DEFAULT_TIMEOUT_SECONDS: u32 = 3;

/// A desktop notification ready to be displayed.
pub struct Notice {
    /// The notification's title.
    pub summary: String,
    /// The notification's message body.
    pub body: String,
    /// How long the notification stays visible, in milliseconds.
    pub timeout_ms: u32,
}

/// The notification with the given title and message, displayed for
/// `timeout_seconds` seconds, expressed in milliseconds as the desktop
/// notification service expects. The milliseconds are a `u32`: a timeout
/// longer than that can hold wraps around.
pub fn show_notification(title: &str, message: &str, timeout_seconds: u32) -> (notice: Notice)
    ensures
        notice.summary@ == title@,
        notice.body@ == message@,
        notice.timeout_ms == (timeout_seconds * 1000) % 0x1_0000_0000,
        timeout_seconds * 1000 <= u32::MAX ==> notice.timeout_ms == timeout_seconds * 1000,
{
    Notice {
        summary: title.to_owned(),
        body: message.to_owned(),
        timeout_ms: timeout_seconds.wrapping_mul(1000),
    }
}

/// The notification with the given title and message, displayed for the
/// default timeout of three seconds.
pub fn show_notification_default(title: &str, message: &str) -> (notice: Notice)
    ensures
        notice.summary@ == title@,
        notice.body@ == message@,
        notice.timeout_ms == DEFAULT_TIMEOUT_SECONDS * 1000,
        notice.timeout_ms == 3000,
{
    show_notification(title, message, DEFAULT_TIMEOUT_SECONDS)
}

} // verus!
