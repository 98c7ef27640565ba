//! The core of a podcast feed crawler: reading and validating RSS feeds,
//! deciding what an ingestion writes, and the retry queue and cleanup rules
//! around it. The library computes; fetching, the database and the worker
//! threads belong to the program that uses it.

pub mod errors;
pub mod jobs;
pub mod model;
pub mod xml;
pub mod mediators;
