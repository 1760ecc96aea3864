//! Verified core of a memory-mapped file library.
pub mod access;
pub mod codec;
pub mod error;
pub mod identity;
pub mod lifecycle;
pub mod lock;
pub mod mapping;
pub mod metadata;
pub mod removal;
