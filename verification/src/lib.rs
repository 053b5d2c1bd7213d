//! The witness-validation gate of a zero-knowledge proving pipeline, together
//! with the small pieces of wallet, RPC and glyph-atlas logic that sit beside it.
//!
//! Every function states what it returns in its contract, and the contracts are
//! proved.

pub mod zkas;
pub mod witness;
pub mod debug;
pub mod json;
pub mod error;
pub mod atlas;
pub mod wallet;
pub mod serial;
