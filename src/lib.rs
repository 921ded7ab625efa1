//! A small authenticated registry of product records.
//!
//! One configured company may list and remove records; anybody may read a
//! record, and a record moves from listed to sold exactly once, by whoever
//! presents its product identifier. Each record lives in a slot addressed by
//! the identity of its owner.
pub mod error;
pub mod identity;
pub mod instructions;
pub mod laws;
pub mod lifecycle;
pub mod policy;
pub mod registry;
