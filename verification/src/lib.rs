//! A two-way codec between strongly typed plugin commands and the flat,
//! versioned wire envelope that carries them across a process boundary.
//!
//! The wire side is a pair of an integer tag and an optional one-of payload
//! container; the domain side is a tagged union of plugin commands.  The
//! codec enforces the vocabulary invariant that every tag owns exactly one
//! legal payload shape - either no payload at all, or the single payload arm
//! assigned to that tag - and rejects every other combination with a
//! descriptive error rather than a silent default.

pub mod actions;
pub mod commands;
pub mod decode;
pub mod descriptors;
pub mod encode;
pub mod error;
pub mod events;
pub mod laws;
pub mod numeric;
pub mod permissions;
pub mod tags;
pub mod wire;
