//! Book-generation pipeline: outline parsing, generation orchestration,
//! chapter filling, chat responses over persisted chapters, and a
//! fixed-window rate limiter guarding the text-completion backend.

pub mod analytics;
pub mod api;
pub mod chat;
pub mod error;
pub mod limiter;
pub mod model;
pub mod oid;
pub mod outline;
pub mod pipeline;
pub mod prompts;
pub mod store;
pub mod stream;
pub mod text;
pub mod validate;
