//! A bounded-concurrency batch runner for four-stage agent pipelines.
//!
//! Every item goes through pre-processing, template rendering, an inference
//! call and post-processing. The collaborators that do that work (script
//! evaluator, template renderer, inference client) live outside this library;
//! the library holds the decisions, as step functions from a state and a
//! reply to the next state and the next request.

pub mod error;
pub mod lookup;
pub mod pipeline;
pub mod scheduler;
pub mod solo;
pub mod strings;
pub mod value;
