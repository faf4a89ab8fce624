//! Durable per-session message logs, the session metadata index, and the
//! decisions of the session service that composes the two.

pub mod json;
pub mod metadata;
pub mod service;
pub mod store;
pub mod template;
