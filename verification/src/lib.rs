//! Verified core of a desktop shell that delegates static-analysis work to an
//! external engine process and renders the results.
//!
//! The library covers the analysis result processing pipeline: deriving the
//! arguments for the engine invocation, locating the engine binary among an
//! ordered list of candidate paths, extracting the structured payload from the
//! engine's mixed log/JSON output, classifying issue records into a fixed
//! taxonomy of categories, normalizing severity vocabularies, computing
//! bounded per-category health scores, and assembling the report artifacts.
//!
//! Everything that computes on plain values is verified.  Calls into
//! `serde_json` (parsing and reading the opaque payload tree) and `chrono`
//! (the report timestamp) stand behind small trusted wrappers.

pub mod category;
pub mod ext;
pub mod extract;
pub mod lines;
pub mod model;
pub mod numbers;
pub mod paths;
pub mod pipeline;
pub mod report;
pub mod runner;
pub mod score;
pub mod scoring;
pub mod severity;
pub mod text;
