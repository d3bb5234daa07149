//! Normalized TLE and CDM orbital data: the models, pagination, upstream
//! request rules and the Space-Track session logic of the `orbidata` service.
pub mod api;
pub mod clock;
pub mod config;
pub mod error;
pub mod ingest;
pub mod models;
pub mod text;
