//! The unit of work: a recipient paired with an opaque notification payload.

use vstd::prelude::*;

verus! {

/// Addressing mode for a notification: exactly one device token, or a topic
/// fan-out group. The two modes are mutually exclusive.
#[derive(Debug, Clone, PartialEq, Eq)]
pub enum Recipient {
    /// Registration token of a single target device.
    Token(String),
    /// Topic name shared by a group of subscribed devices.
    Topic(String),
}

/// Provider-defined notification content. The dispatch core never inspects
/// it: it is carried through unchanged into the built wire message.
#[derive(Debug, Clone, PartialEq, Eq)]
pub struct NotificationPayload {
    /// Title line shown to the user.
    pub title: Option<String>,
    /// Body text shown to the user.
    pub body: Option<String>,
    /// URL of an image to attach.
    pub image: Option<String>,
}

/// A queued notification: the recipient it is addressed to and the payload to
/// deliver. Immutable once created; consumed by message construction.
#[derive(Debug, Clone)]
pub struct NotificationTask {
    /// Where the notification goes.
    pub recipient: Recipient,
    /// What the notification says.
    pub payload: NotificationPayload,
}

impl NotificationTask {
    /// Packages a recipient and a payload as one unit of work.
    pub fn new(recipient: Recipient, payload: NotificationPayload) -> (t: NotificationTask)
        ensures
            t.recipient == recipient,
            t.payload == payload,
    {
        NotificationTask { recipient, payload }
    }
}

} // verus!
