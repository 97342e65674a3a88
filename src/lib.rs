pub mod timestamp;
pub mod transcript;
pub mod ingest;
