//! The conditions that end a scan.

use vstd::prelude::*;
use crate::columns::Field;

verus! {

/// What is wrong with a single record, seen on its own.
#[derive(Clone, Copy, Debug, PartialEq, Eq, Structural)]
pub enum RecordFault {
    /// The record has no field under one of the three columns.
    Truncated,
    /// The position field is not a non-negative integer.
    MalformedPosition,
    /// A base that had to be read lies outside its sequence.
    SequenceFetch,
}

/// Why a scan of a variant table stopped. Row numbers count data rows from 0.
#[derive(Clone, Copy, Debug, PartialEq, Eq, Structural)]
pub enum ScanError {
    /// The header holds none of the names accepted for this column.
    MissingColumn(Field),
    /// The row has no field under one of the three columns.
    TruncatedRecord(usize),
    /// The row's position field is not a non-negative integer.
    MalformedPosition(usize),
    /// A base that the row asks for lies outside its sequence.
    SequenceFetch(usize),
}

/// The scan error that a fault in row `row` amounts to.
pub open spec fn spec_at_row(fault: RecordFault, row: usize) -> ScanError {
    match fault {
        RecordFault::Truncated => ScanError::TruncatedRecord(row),
        RecordFault::MalformedPosition => ScanError::MalformedPosition(row),
        RecordFault::SequenceFetch => ScanError::SequenceFetch(row),
    }
}

/// Attaches the number of the row to a fault found in it.
pub fn at_row(fault: RecordFault, row: usize) -> (e: ScanError)
    ensures
        e == spec_at_row(fault, row),
{
    match fault {
        RecordFault::Truncated => ScanError::TruncatedRecord(row),
        RecordFault::MalformedPosition => ScanError::MalformedPosition(row),
        RecordFault::SequenceFetch => ScanError::SequenceFetch(row),
    }
}

} // verus!
