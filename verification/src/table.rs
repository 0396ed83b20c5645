//! Reading a variant table from tab-separated text.

use vstd::prelude::*;
use crate::arbiter::{
    assess_ref_genomes_support, first_failure, summarizes, ColumnOverrides, NamedGenome, Summary,
    VariantTable,
};
use crate::error::ScanError;

verus! {

/// Why a table given as text could not be assessed.
#[derive(Clone, Copy, Debug, PartialEq, Eq, Structural)]
pub enum AssessError {
    /// The text is not a well-formed tab-separated table.
    UnreadableTable,
    /// The table was read, and a pass over it failed.
    Scan(ScanError),
}

/// The header names and the data rows that the `csv` crate reads from
/// tab-separated text, or `None` where it reports an error.
pub uninterp spec fn tsv_table(bytes: Seq<u8>) -> Option<(Seq<Seq<char>>, Seq<Seq<Seq<char>>>)>;

/// A table's header and rows as text.
pub open spec fn table_text(table: Option<VariantTable>) -> Option<
    (Seq<Seq<char>>, Seq<Seq<Seq<char>>>),
> {
    match table {
        Some(t) => Some((t@.header, t@.rows)),
        None => None,
    }
}

/// Reads the text with a `csv::Reader` built by `csv::ReaderBuilder` with a
/// tab as delimiter and otherwise default settings: `headers` gives the
/// header row, `records` the data rows. Nothing is proved of this function;
/// its contract only names what the reader returns for these bytes.
#[verifier::external_body]
fn read_tsv(bytes: &[u8]) -> (table: Option<VariantTable>)
    ensures
        table_text(table) == tsv_table(bytes@),
{
    let mut reader = csv::ReaderBuilder::new().delimiter(b'\t').from_reader(bytes);
    let header: Vec<String> = reader.headers().ok()?.iter().map(String::from).collect();
    let mut rows: Vec<Vec<String>> = Vec::new();
    for record in reader.records() {
        rows.push(record.ok()?.iter().map(String::from).collect());
    }
    Some(VariantTable { header, rows })
}

/// Assesses a table that has already been read against every genome. With
/// no table there is nothing to assess.
pub fn assess_table(
    table: Option<VariantTable>,
    sources: &Vec<NamedGenome>,
    overrides: &ColumnOverrides,
) -> (assessed: Result<Summary, AssessError>)
    ensures
        table is None ==> assessed == Err::<Summary, AssessError>(AssessError::UnreadableTable),
        table matches Some(t) ==> match assessed {
            Ok(summary) => summarizes(
                summary,
                t@.header,
                t@.rows,
                sources@,
                overrides@,
            ),
            Err(AssessError::Scan(e)) => first_failure(
                e,
                t@.header,
                t@.rows,
                sources@,
                overrides@,
            ),
            Err(AssessError::UnreadableTable) => false,
        },
{
    match table {
        None => Err(AssessError::UnreadableTable),
        Some(t) => match assess_ref_genomes_support(&t, sources, overrides) {
            Ok(summary) => Ok(summary),
            Err(e) => Err(AssessError::Scan(e)),
        },
    }
}

/// Reads a variant table from tab-separated text with a header row and
/// assesses it against every genome.
pub fn assess_tsv(bytes: &[u8], sources: &Vec<NamedGenome>, overrides: &ColumnOverrides) -> (assessed:
    Result<Summary, AssessError>)
    ensures
        tsv_table(bytes@) is None ==> assessed == Err::<Summary, AssessError>(
            AssessError::UnreadableTable,
        ),
        tsv_table(bytes@) matches Some(t) ==> match assessed {
            Ok(summary) => summarizes(summary, t.0, t.1, sources@, overrides@),
            Err(AssessError::Scan(e)) => first_failure(e, t.0, t.1, sources@, overrides@),
            Err(AssessError::UnreadableTable) => false,
        },
{
    assess_table(read_tsv(bytes), sources, overrides)
}

} // verus!
