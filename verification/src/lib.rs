//! Scheduling, caching and serving rules of a small data provider for a
//! status bar: when each source is fetched again, how failures are retried,
//! where artifacts are kept and how they are replaced, and what the HTTP
//! surface answers.

pub mod cache;
mod clock;
pub mod json;
pub mod scheduler;
pub mod sensors;
pub mod server;
pub mod text;
pub mod weather;
