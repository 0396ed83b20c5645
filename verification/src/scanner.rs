//! Scanning the records of a variant table against one genome.

use vstd::prelude::*;
use crate::columns::{position_of, spec_position_of, texts, ColumnPlaces};
use crate::error::{at_row, spec_at_row, RecordFault, ScanError};
use crate::genome::{
    contig_names, fetch_seq, get_all_chromosomes, spec_fetch_seq, ContigView, Genome,
};
use crate::record::{
    base_supports, normalize_allele, parse_position, spec_allele, spec_base_supports,
    spec_parse_position, spec_upper,
};
use crate::tally::MatchTally;

verus! {

/// What is to be done with one record.
#[derive(Clone, Copy, Debug, PartialEq, Eq, Structural)]
pub enum RecordPlan {
    /// The reference allele is not a single unambiguous base: the record is
    /// left out of every count.
    Skip,
    /// The genome does not hold the record's chromosome: the record is
    /// counted as tested and as missing, and nothing is fetched.
    ChromosomeMissing,
    /// The base at `position` and the base one before it are to be compared
    /// with `allele`.
    Compare { allele: u8, position: u64 },
}

/// How the two readings of one record's position fared against the genome.
#[derive(Clone, Copy, Debug, PartialEq, Eq, Structural)]
pub struct Comparison {
    /// The base at the position as given equals the allele.
    pub zero_based: bool,
    /// The base one before the position equals the allele.
    pub one_based: bool,
}

/// The text of every field of every row.
pub open spec fn rows_text(rows: Seq<Vec<String>>) -> Seq<Seq<Seq<char>>> {
    Seq::new(rows.len(), |i: int| texts(rows[i]@))
}

/// The plan for one record, given the columns and the names of the genome's
/// sequences. The position is read first, so a record with a malformed
/// position is a fault whatever its allele; the allele filter comes second
/// and the chromosome third.
pub open spec fn spec_plan(cols: ColumnPlaces, registry: Seq<Seq<char>>, row: Seq<Seq<char>>) -> Result<
    RecordPlan,
    RecordFault,
> {
    if !(cols.chrom < row.len() && cols.pos < row.len() && cols.reference < row.len()) {
        Err(RecordFault::Truncated)
    } else {
        match spec_parse_position(row[cols.pos as int]) {
            None => Err(RecordFault::MalformedPosition),
            Some(position) => match spec_allele(row[cols.reference as int]) {
                None => Ok(RecordPlan::Skip),
                Some(allele) => if !registry.contains(row[cols.chrom as int]) {
                    Ok(RecordPlan::ChromosomeMissing)
                } else {
                    Ok(RecordPlan::Compare { allele, position })
                },
            },
        }
    }
}

/// The outcome of comparing `allele` with what was fetched for the position
/// as given and for the position before it. A fetch that did not bring
/// exactly one base counts as failed.
pub open spec fn spec_compare_fetched(allele: u8, as_given: Seq<u8>, one_before: Seq<u8>) -> Result<
    Comparison,
    RecordFault,
> {
    if as_given.len() == 1 && one_before.len() == 1 {
        Ok(
            Comparison {
                zero_based: spec_base_supports(as_given, allele),
                one_based: spec_base_supports(one_before, allele),
            },
        )
    } else {
        Err(RecordFault::SequenceFetch)
    }
}

/// The outcome of comparing `allele` with the genome at `position` read as
/// 0-based and as 1-based. Both bases must be there: position 0 has no base
/// before it, so its 1-based reading is a failed fetch, never a wrapped
/// position.
pub open spec fn spec_compare(
    contigs: Seq<ContigView>,
    chrom: Seq<char>,
    allele: u8,
    position: u64,
) -> Result<Comparison, RecordFault> {
    let as_given = spec_fetch_seq(contigs, chrom, position as int, position as int, true);
    let one_before = spec_fetch_seq(contigs, chrom, position - 1, position - 1, true);
    if as_given is Ok && one_before is Ok {
        spec_compare_fetched(allele, as_given->Ok_0, one_before->Ok_0)
    } else {
        Err(RecordFault::SequenceFetch)
    }
}

/// The tally after one more record.
pub open spec fn spec_step(cols: ColumnPlaces, contigs: Seq<ContigView>, tally: MatchTally, row: Seq<
    Seq<char>,
>) -> Result<MatchTally, RecordFault> {
    match spec_plan(cols, contig_names(contigs), row) {
        Err(fault) => Err(fault),
        Ok(RecordPlan::Skip) => Ok(tally),
        Ok(RecordPlan::ChromosomeMissing) => Ok(tally.spec_with_missing()),
        Ok(RecordPlan::Compare { allele, position }) => match spec_compare(
            contigs,
            row[cols.chrom as int],
            allele,
            position,
        ) {
            Err(fault) => Err(fault),
            Ok(c) => Ok(tally.spec_with_compared(c.zero_based, c.one_based)),
        },
    }
}

/// The tally after the first `n` rows, or the fault of the first row that
/// has one.
pub open spec fn spec_scan(cols: ColumnPlaces, contigs: Seq<ContigView>, rows: Seq<Seq<Seq<char>>>, n: int)
    -> Result<MatchTally, ScanError>
    decreases n,
{
    if n <= 0 {
        Ok(MatchTally::spec_new())
    } else {
        match spec_scan(cols, contigs, rows, n - 1) {
            Err(e) => Err(e),
            Ok(tally) => match spec_step(cols, contigs, tally, rows[n - 1]) {
                Err(fault) => Err(spec_at_row(fault, (n - 1) as usize)),
                Ok(next) => Ok(next),
            },
        }
    }
}

/// Once a row has a fault, rows after it change nothing: the scan of any
/// longer stretch reports that same fault.
pub proof fn lemma_scan_stops_at_first_fault(
    cols: ColumnPlaces,
    contigs: Seq<ContigView>,
    rows: Seq<Seq<Seq<char>>>,
    k: int,
    n: int,
)
    requires
        k <= n,
        spec_scan(cols, contigs, rows, k) is Err,
    ensures
        spec_scan(cols, contigs, rows, n) == spec_scan(cols, contigs, rows, k),
    decreases n - k,
{
    if k < n {
        lemma_scan_stops_at_first_fault(cols, contigs, rows, k, n - 1);
    }
}

/// The base at `position`, counted from 0, of the first sequence named
/// `chrom`, in upper case.
pub open spec fn spec_base_at(contigs: Seq<ContigView>, chrom: Seq<char>, position: int) -> u8 {
    spec_upper(contigs[spec_position_of(contig_names(contigs), chrom)].bases[position])
}

/// Whether a row counts as tested: it has no fault of its own and its
/// allele passes the filter.
pub open spec fn is_tested(cols: ColumnPlaces, registry: Seq<Seq<char>>, row: Seq<Seq<char>>) -> bool {
    spec_plan(cols, registry, row) is Ok && spec_plan(cols, registry, row) != Ok::<
        RecordPlan,
        RecordFault,
    >(RecordPlan::Skip)
}

/// How many of the first `n` rows count as tested.
pub open spec fn count_tested(
    cols: ColumnPlaces,
    registry: Seq<Seq<char>>,
    rows: Seq<Seq<Seq<char>>>,
    n: int,
) -> nat
    decreases n,
{
    if n <= 0 {
        0
    } else {
        count_tested(cols, registry, rows, n - 1) + if is_tested(cols, registry, rows[n - 1]) {
            1nat
        } else {
            0nat
        }
    }
}

/// How many of the first `n` rows pass the allele filter and name a
/// chromosome that the genome does not hold.
pub open spec fn count_missing(
    cols: ColumnPlaces,
    registry: Seq<Seq<char>>,
    rows: Seq<Seq<Seq<char>>>,
    n: int,
) -> nat
    decreases n,
{
    if n <= 0 {
        0
    } else {
        count_missing(cols, registry, rows, n - 1) + if spec_plan(cols, registry, rows[n - 1])
            == Ok::<RecordPlan, RecordFault>(RecordPlan::ChromosomeMissing) {
            1nat
        } else {
            0nat
        }
    }
}

/// Whether a row is compared with the genome and its allele is the base at
/// its position, counted from `origin`: 0 for the 0-based reading, 1 for the
/// 1-based one.
pub open spec fn supports_reading(
    cols: ColumnPlaces,
    contigs: Seq<ContigView>,
    row: Seq<Seq<char>>,
    origin: int,
) -> bool {
    spec_plan(cols, contig_names(contigs), row) matches Ok(RecordPlan::Compare { allele, position })
        && spec_base_at(contigs, row[cols.chrom as int], position - origin) == allele
}

/// How many of the first `n` rows support the reading with the given
/// origin.
pub open spec fn count_supporting(
    cols: ColumnPlaces,
    contigs: Seq<ContigView>,
    rows: Seq<Seq<Seq<char>>>,
    n: int,
    origin: int,
) -> nat
    decreases n,
{
    if n <= 0 {
        0
    } else {
        count_supporting(cols, contigs, rows, n - 1, origin) + if supports_reading(
            cols,
            contigs,
            rows[n - 1],
            origin,
        ) {
            1nat
        } else {
            0nat
        }
    }
}

/// What one record does to the counts. A skipped record changes nothing. A
/// record whose chromosome is missing adds one to the tested and to the
/// missing count and to no other. A compared record adds one to the tested
/// count, one to the 0-based count exactly if the base at its position is
/// its allele, and one to the 1-based count exactly if the base before its
/// position is.
pub proof fn lemma_record_counts(
    cols: ColumnPlaces,
    contigs: Seq<ContigView>,
    tally: MatchTally,
    row: Seq<Seq<char>>,
)
    requires
        tally.wf(),
        tally.variants_tested < u64::MAX,
    ensures
        match spec_plan(cols, contig_names(contigs), row) {
            Err(fault) => spec_step(cols, contigs, tally, row) == Err::<MatchTally, RecordFault>(
                fault,
            ),
            Ok(RecordPlan::Skip) => spec_step(cols, contigs, tally, row) == Ok::<
                MatchTally,
                RecordFault,
            >(tally),
            Ok(RecordPlan::ChromosomeMissing) => {
                &&& spec_step(cols, contigs, tally, row) matches Ok(next)
                &&& next.variants_tested == tally.variants_tested + 1
                &&& next.chromosome_missing == tally.chromosome_missing + 1
                &&& next.supporting_0based == tally.supporting_0based
                &&& next.supporting_1based == tally.supporting_1based
                &&& next.wf()
            },
            Ok(RecordPlan::Compare { allele, position }) => spec_step(cols, contigs, tally, row)
                matches Ok(next) ==> {
                &&& next.variants_tested == tally.variants_tested + 1
                &&& next.chromosome_missing == tally.chromosome_missing
                &&& next.supporting_0based == tally.supporting_0based + if spec_base_at(
                    contigs,
                    row[cols.chrom as int],
                    position as int,
                ) == allele {
                    1int
                } else {
                    0int
                }
                &&& next.supporting_1based == tally.supporting_1based + if spec_base_at(
                    contigs,
                    row[cols.chrom as int],
                    position - 1,
                ) == allele {
                    1int
                } else {
                    0int
                }
                &&& next.wf()
            },
        },
{
}

/// After any number of rows without a fault, the tested count is the number
/// of rows that passed the allele filter, the missing count the number of
/// those whose chromosome the genome lacks, each supporting count the
/// number of rows whose allele is the base that its reading names, and no
/// partial count exceeds the tested count.
pub proof fn lemma_scan_counts(
    cols: ColumnPlaces,
    contigs: Seq<ContigView>,
    rows: Seq<Seq<Seq<char>>>,
    n: int,
)
    requires
        0 <= n <= usize::MAX,
        spec_scan(cols, contigs, rows, n) is Ok,
    ensures
        spec_scan(cols, contigs, rows, n)->Ok_0.wf(),
        spec_scan(cols, contigs, rows, n)->Ok_0.variants_tested == count_tested(
            cols,
            contig_names(contigs),
            rows,
            n,
        ),
        spec_scan(cols, contigs, rows, n)->Ok_0.chromosome_missing == count_missing(
            cols,
            contig_names(contigs),
            rows,
            n,
        ),
        spec_scan(cols, contigs, rows, n)->Ok_0.supporting_0based == count_supporting(
            cols,
            contigs,
            rows,
            n,
            0,
        ),
        spec_scan(cols, contigs, rows, n)->Ok_0.supporting_1based == count_supporting(
            cols,
            contigs,
            rows,
            n,
            1,
        ),
        count_tested(cols, contig_names(contigs), rows, n) <= n,
    decreases n,
{
    if n > 0 {
        lemma_scan_counts(cols, contigs, rows, n - 1);
        let before = spec_scan(cols, contigs, rows, n - 1)->Ok_0;
        lemma_record_counts(cols, contigs, before, rows[n - 1]);
    }
}

/// The first base of a sequence is the one that position 1 names under the
/// 1-based reading. Position 0 has no 1-based reading: its comparison is a
/// failed fetch, whatever the genome holds.
pub proof fn lemma_first_base_boundary(contigs: Seq<ContigView>, chrom: Seq<char>, allele: u8)
    ensures
        spec_compare(contigs, chrom, allele, 0) == Err::<Comparison, RecordFault>(
            RecordFault::SequenceFetch,
        ),
        contig_names(contigs).contains(chrom) && contigs[spec_position_of(
            contig_names(contigs),
            chrom,
        )].bases.len() >= 2 ==> spec_compare(contigs, chrom, allele, 1) == Ok::<
            Comparison,
            RecordFault,
        >(
            Comparison {
                zero_based: spec_base_at(contigs, chrom, 1) == allele,
                one_based: spec_base_at(contigs, chrom, 0) == allele,
            },
        ),
{
}

/// Decides what to do with one record before anything is fetched.
pub fn plan_record(cols: &ColumnPlaces, registry: &Vec<String>, row: &Vec<String>) -> (plan: Result<
    RecordPlan,
    RecordFault,
>)
    ensures
        plan == spec_plan(*cols, texts(registry@), texts(row@)),
{
    if cols.chrom >= row.len() || cols.pos >= row.len() || cols.reference >= row.len() {
        return Err(RecordFault::Truncated);
    }
    let position = match parse_position(&row[cols.pos]) {
        Some(position) => position,
        None => {
            return Err(RecordFault::MalformedPosition);
        },
    };
    let allele = match normalize_allele(&row[cols.reference]) {
        Some(allele) => allele,
        None => {
            return Ok(RecordPlan::Skip);
        },
    };
    if position_of(registry, &row[cols.chrom]).is_none() {
        return Ok(RecordPlan::ChromosomeMissing);
    }
    Ok(RecordPlan::Compare { allele, position })
}

/// The position that `position` names when it is read as 1-based: the one
/// before it. Position 0 names none; nothing wraps around.
pub fn position_before(position: u64) -> (before: Option<u64>)
    ensures
        position == 0 <==> before is None,
        before matches Some(p) ==> p == position - 1,
{
    if position == 0 {
        None
    } else {
        Some(position - 1)
    }
}

/// Compares `allele` with what was fetched from a genome for the position
/// as given and for the position before it.
pub fn compare_fetched(allele: u8, as_given: &Vec<u8>, one_before: &Vec<u8>) -> (outcome: Result<
    Comparison,
    RecordFault,
>)
    ensures
        outcome == spec_compare_fetched(allele, as_given@, one_before@),
{
    if as_given.len() != 1 || one_before.len() != 1 {
        return Err(RecordFault::SequenceFetch);
    }
    Ok(
        Comparison {
            zero_based: base_supports(as_given, allele),
            one_based: base_supports(one_before, allele),
        },
    )
}

/// Fetches the base at `position` and the base one before it from the
/// sequence `chrom`, and compares each with `allele`.
pub fn compare_in_genome(genome: &Genome, chrom: &String, allele: u8, position: u64) -> (outcome:
    Result<Comparison, RecordFault>)
    ensures
        outcome == spec_compare(genome@, chrom@, allele, position),
{
    let as_given = match fetch_seq(genome, chrom, position, position, true) {
        Ok(bases) => bases,
        Err(_) => {
            return Err(RecordFault::SequenceFetch);
        },
    };
    let before = match position_before(position) {
        Some(before) => before,
        None => {
            return Err(RecordFault::SequenceFetch);
        },
    };
    let one_before = match fetch_seq(genome, chrom, before, before, true) {
        Ok(bases) => bases,
        Err(_) => {
            return Err(RecordFault::SequenceFetch);
        },
    };
    compare_fetched(allele, &as_given, &one_before)
}

/// Scans every row once, in order, and returns the final tally. The scan
/// stops at the first row with a fault and reports it with the row's number.
pub fn scan_variants(cols: &ColumnPlaces, genome: &Genome, rows: &Vec<Vec<String>>) -> (scanned: Result<
    MatchTally,
    ScanError,
>)
    ensures
        scanned == spec_scan(*cols, genome@, rows_text(rows@), rows.len() as int),
        scanned matches Ok(tally) ==> tally.wf() && tally.variants_tested <= rows.len(),
{
    let registry = get_all_chromosomes(genome);
    let mut tally = MatchTally::new();
    let mut i: usize = 0;
    while i < rows.len()
        invariant
            i <= rows.len(),
            texts(registry@) == contig_names(genome@),
            spec_scan(*cols, genome@, rows_text(rows@), i as int) == Ok::<
                MatchTally,
                ScanError,
            >(tally),
            tally.wf(),
            tally.variants_tested <= i,
        decreases rows.len() - i,
    {
        let row = &rows[i];
        match plan_record(cols, &registry, row) {
            Err(fault) => {
                proof {
                    lemma_scan_stops_at_first_fault(
                        *cols,
                        genome@,
                        rows_text(rows@),
                        i + 1,
                        rows.len() as int,
                    );
                }
                return Err(at_row(fault, i));
            },
            Ok(RecordPlan::Skip) => {},
            Ok(RecordPlan::ChromosomeMissing) => {
                tally.record_missing();
            },
            Ok(RecordPlan::Compare { allele, position }) => {
                match compare_in_genome(genome, &row[cols.chrom], allele, position) {
                    Err(fault) => {
                        proof {
                            lemma_scan_stops_at_first_fault(
                                *cols,
                                genome@,
                                rows_text(rows@),
                                i + 1,
                                rows.len() as int,
                            );
                        }
                        return Err(at_row(fault, i));
                    },
                    Ok(c) => {
                        tally.record_compared(c.zero_based, c.one_based);
                    },
                }
            },
        }
        i = i + 1;
    }
    Ok(tally)
}

} // verus!
