//! Best-effort asynchronous dispatch core for push notifications.
//!
//! Producers enqueue a notification addressed to a single device token or to a
//! topic; workers drain the queue, build a provider wire message, and attempt
//! delivery with bounded linear backoff and error-class-specific handling.
//! This crate holds the verified core: the task and message data model, the
//! FIFO queue discipline, the memoized delivery-client provider, and the
//! retry/error-classification state machine. The asynchronous runtime that
//! drives these pieces lives outside the crate.

pub mod delivery;
pub mod executor;
pub mod message;
pub mod provider;
pub mod queue;
pub mod task;

pub use delivery::Classification;
pub use delivery::DeliveryError;
pub use executor::Action;
pub use executor::ExecutorState;
pub use message::Message;
pub use provider::ClientHandle;
pub use provider::DeliveryClientProvider;
pub use queue::TaskQueue;
pub use task::NotificationPayload;
pub use task::NotificationTask;
pub use task::Recipient;
