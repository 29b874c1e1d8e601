//! Movie-diary enrichment: match each diary entry against a movie
//! metadata service and emit enriched rows, one record at a time.
//!
//! The library holds the decisions; the caller performs the remote
//! requests and hands their results back.

pub mod records;
pub mod matching;
pub mod pipeline;
pub mod laws;
