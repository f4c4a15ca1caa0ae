//! Access mediation for a document store: bounded request mailboxes, one
//! decision machine per store capability, alias resolution and a field-level
//! authorization gate for patches.

pub mod naming;
pub mod value;
pub mod store;
pub mod patch;
pub mod collection;
pub mod document;
pub mod health;
pub mod mailbox;
pub mod rfc7807;
