//! Conversion and dispatch layer between a dynamically typed host runtime
//! and a statistical-law analysis engine: host values become canonical
//! values, keyword arguments become a typed configuration, and the engine's
//! results become host records.
pub mod bridge;
pub mod host;
pub mod options;
pub mod results;
pub mod value;
