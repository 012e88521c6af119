//! A verified core for an embedding sidecar service.
//!
//! The library holds the model-lifecycle state machine (empty or loaded),
//! the tokenize/encode/pool pipeline that turns one string into a vector of
//! IEEE-754 bit patterns, and the presentation of that vector as a stream of
//! text chunks.  Inference itself is done by outside crates behind the
//! trusted wrappers of `backend`; everything around those calls is verified.
//!
//! - `store` owns the lifecycle and the pipeline;
//! - `service` presents the five operations with exact replies;
//! - `present` renders a vector as the streamed header and hex chunks;
//! - `bytes`, `hexfmt` and `numfmt` carry the encodings those use;
//! - `laws` proves what holds across calls.

pub mod backend;
pub mod bytes;
pub mod hexfmt;
pub mod laws;
pub mod numfmt;
pub mod present;
pub mod service;
pub mod store;
