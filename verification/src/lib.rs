//! Typed state-change notifications of a media server: the subsystem taxonomy,
//! the failures that can arrive in place of a notification, and the fused
//! sequence that hands both to the application.

pub mod text;
pub mod subsystem;
pub mod decimal;
pub mod error;
pub mod changes;

pub use crate::changes::StateChanges;
pub use crate::error::StateChangeError;
pub use crate::subsystem::Subsystem;
