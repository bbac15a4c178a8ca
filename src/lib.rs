//! One-time notification ("flash") messages carried across requests in a
//! session.
//!
//! A handler pushes messages while one request is served; the next request
//! sees them and consumes them once. Messages live in two queues: `pending`
//! (written during the present request) and `current` (readable during the
//! present request). Each request starts with a single rotation that promotes
//! `pending` to `current`. A modification flag records whether the state has
//! changed since it was loaded, so a request that neither pushed nor read
//! anything skips the write back to the session store.
//!
//! The session store, the shared per-request handle and the HTTP plumbing stand
//! outside this crate; the decisions they need are the functions of
//! [`manager`].

pub mod level;
pub mod message;
pub mod store;
pub mod messages;
pub mod manager;
pub mod laws;

pub use level::Level;
pub use message::Message;
pub use store::Data;
pub use messages::Messages;
pub use manager::{MessagesManager, MessagesManagerLayer, Rejection};
