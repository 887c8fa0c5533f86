//! A batched, file-backed ingestion adapter for the `rettle` ETL engine.
//!
//! A caller describes a line-oriented source with a [`fill::FillLogArg`]: a
//! file path, a batch size, and a parser that turns one line of text into one
//! typed record.  The ingestion loop applies the parser line by line, skipping
//! and counting lines the parser rejects, gathers the records into batches of
//! the configured size, and yields each batch — plus one final partial batch —
//! exactly once, in file order, ready for the caller to hand to the engine.
//! [`fill::Ingestor`] is the loop one line at a time, so the caller can read,
//! parse and dispatch interleaved, holding at most one batch in memory.

pub mod batching;
pub mod fill;

pub use crate::fill::ConfigError;
pub use crate::fill::FillLogArg;
pub use crate::fill::FillLogTea;
pub use crate::fill::IngestError;
pub use crate::fill::IngestionUnit;
pub use crate::fill::Ingestor;
pub use crate::fill::ParseError;
pub use crate::fill::RunSummary;
