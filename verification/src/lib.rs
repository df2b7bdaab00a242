//! A memory-safe facade over a native large-language-model inference
//! library: model vocabulary metadata, tokenization, detokenization and
//! chat-template formatting.
//!
//! The native entry points write into caller-supplied fixed-capacity
//! buffers and report either a count of elements written or, negated, the
//! capacity they would have needed.  Everything that decides — how big a
//! buffer to offer, when to retry, which tokens are decoded natively and
//! which resolve immediately, how raw native output is turned into typed
//! results — lives here and is verified.  The thin layer that owns the
//! native handle and performs the raw calls sits outside this crate and
//! feeds the raw results back in.

pub mod chat;
pub mod detokenize;
pub mod error;
pub mod model;
pub mod negotiate;
pub mod text;
pub mod token;
pub mod token_type;
pub mod tokenize;
