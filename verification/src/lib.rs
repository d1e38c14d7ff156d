//! A forum-style content service: users register and authenticate, and
//! post, read, edit and moderate discussion content organised into
//! categories, posts and replies, gated by an ordered permission hierarchy.
//!
//! The crate is organised bottom-up:
//! - [`permission`]: the ordered permission levels and the allow-check;
//! - [`models`]: validated value types and the entity records;
//! - [`password`]: password validation, hashing and verification;
//! - [`response`]: the error taxonomy and outward messages;
//! - [`store`]: the in-memory entity store with its invariants;
//! - [`lifecycle`]: the authorise-then-mutate operations;
//! - [`gate`]: the reader-writer access point around the store.

pub mod gate;
pub mod lifecycle;
pub mod models;
pub mod password;
pub mod permission;
pub mod response;
pub mod store;
