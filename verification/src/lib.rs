//! Infers whether a table of variants uses 0-based or 1-based positions, and
//! which of several candidate reference genomes its reference alleles agree
//! with.
//!
//! The library works on plain values: header names, rows of text fields and
//! genome sequences held in memory. Opening files and printing reports is
//! left to the caller. A caller that reads its genomes from disk can drive a
//! scan row by row: `scanner::plan_record` says what a row asks for,
//! `scanner::compare_fetched` judges the bases that were read, and
//! `tally::MatchTally` keeps the counts.

pub mod arbiter;
pub mod columns;
pub mod error;
pub mod genome;
pub mod record;
pub mod scanner;
pub mod table;
pub mod tally;
pub mod verdict;
