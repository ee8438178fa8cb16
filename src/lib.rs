//! Turns a failed response of the Hugging Face file-system API into a
//! backend-agnostic storage error: a kind, a message taken from the
//! response's JSON payload (or its raw text), diagnostic context and a
//! retry flag.

pub mod classify;
pub mod context;
pub mod error;
pub mod payload;
pub mod status;
