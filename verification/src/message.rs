//! Pure construction of the provider wire message from a task.

use vstd::prelude::*;
use crate::task::NotificationPayload;
use crate::task::NotificationTask;
use crate::task::Recipient;

verus! {

/// The provider wire representation of one notification, built once per
/// task. It embeds the payload, a fixed high delivery-priority hint (so the
/// platform delivers promptly even to devices in a low-power state), and
/// exactly one addressing field chosen by the task's recipient variant. All
/// other sections of the provider message use provider defaults.
#[derive(Debug, Clone)]
pub struct Message {
    /// The notification content, passed through unmodified.
    pub payload: NotificationPayload,
    /// Fixed high-priority delivery hint for the platform delivery path.
    pub priority_high: bool,
    /// Set to the device token when the task addresses a single device.
    pub token: Option<String>,
    /// Set to the topic name when the task addresses a topic.
    pub topic: Option<String>,
}

impl Message {
    /// A message addresses its target in exactly one way: the token field or
    /// the topic field is set, never both and never neither.
    pub open spec fn well_addressed(self) -> bool {
        self.token is Some <==> self.topic is None
    }
}

/// The message that `build_message` constructs for a task, stated directly:
/// payload carried through, priority fixed high, and the addressing field
/// matching the recipient variant.
pub open spec fn built_message(task: NotificationTask) -> Message {
    Message {
        payload: task.payload,
        priority_high: true,
        token: match task.recipient {
            Recipient::Token(t) => Some(t),
            Recipient::Topic(_) => None,
        },
        topic: match task.recipient {
            Recipient::Token(_) => None,
            Recipient::Topic(t) => Some(t),
        },
    }
}

/// Builds the wire message for one task. Consumes the task: a retry reuses
/// the message built here, never a fresh task.
pub fn build_message(task: NotificationTask) -> (m: Message)
    ensures
        m == built_message(task),
        m.well_addressed(),
{
    let mut m = Message { payload: task.payload, priority_high: true, token: None, topic: None };
    match task.recipient {
        Recipient::Token(t) => {
            m.token = Some(t);
        },
        Recipient::Topic(t) => {
            m.topic = Some(t);
        },
    }
    m
}

} // verus!
