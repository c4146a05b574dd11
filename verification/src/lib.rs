//! Verified core of an `lms`-driven local LLM service: the model allowlist,
//! the location of the `lms` executable, the argument vectors of each job,
//! and the interpretation of what `lms` reports back.

pub mod context;
pub mod error;
pub mod jobs;
pub mod text;
