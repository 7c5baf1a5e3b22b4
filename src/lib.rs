//! Staged ingestion of game telemetry objects: storage keys, codecs, format
//! parsers and the per-delivery state machine that moves an object from one
//! stage of the pipeline to the next.

pub mod compression;
pub mod error;
pub mod text;
pub mod file_type;
pub mod storage_key;
pub mod parsers;
pub mod engine;
pub mod active_match;
pub mod salts;
