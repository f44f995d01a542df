//! Accounting core of a confidential token ledger.
//!
//! Balances and supplies are never held in plaintext: they are handles to
//! values encrypted by an outside homomorphic engine. Every instruction first
//! validates the records it is given, then (where it touches an encrypted
//! value) produces a fixed, data-independent program of engine calls, and
//! finally writes the engine's replies back into the records.

pub mod types;
pub mod error;
pub mod engine;
pub mod programs;
pub mod validate;
pub mod token;
pub mod token_2022;
pub mod laws;
