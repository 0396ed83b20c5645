//! Assessing a variant table against one genome or several, and combining
//! the verdicts on the genomes into one conclusion.

use vstd::prelude::*;
use crate::columns::{
    default_chrom_names, default_pos_names, default_ref_names, get_column_names, name_text,
    resolve_columns, spec_candidates, spec_default_chrom_names, spec_default_pos_names,
    spec_default_ref_names, spec_first_unresolved, spec_places, texts,
};
use crate::error::ScanError;
use crate::genome::{ContigView, Genome};
use crate::scanner::{rows_text, scan_variants, spec_scan};
use crate::tally::MatchTally;
use crate::verdict::{classify, spec_classify, Coordinate, RefGenomeMatches, Verdict};

verus! {

/// A variant table: the names of its header row and the fields of its data
/// rows.
#[derive(Clone, Debug)]
pub struct VariantTable {
    pub header: Vec<String>,
    pub rows: Vec<Vec<String>>,
}

/// A variant table as text.
pub struct VariantTableView {
    pub header: Seq<Seq<char>>,
    pub rows: Seq<Seq<Seq<char>>>,
}

impl View for VariantTable {
    type V = VariantTableView;

    open spec fn view(&self) -> VariantTableView {
        VariantTableView { header: texts(self.header@), rows: rows_text(self.rows@) }
    }
}

/// Column names given by the caller. A field left at `None` is looked up
/// under its default names.
#[derive(Clone, Debug)]
pub struct ColumnOverrides {
    pub chrom: Option<String>,
    pub pos: Option<String>,
    pub reference: Option<String>,
}

/// The caller's column names as text.
pub struct ColumnOverridesView {
    pub chrom: Option<Seq<char>>,
    pub pos: Option<Seq<char>>,
    pub reference: Option<Seq<char>>,
}

impl View for ColumnOverrides {
    type V = ColumnOverridesView;

    open spec fn view(&self) -> ColumnOverridesView {
        ColumnOverridesView {
            chrom: name_text(self.chrom),
            pos: name_text(self.pos),
            reference: name_text(self.reference),
        }
    }
}

/// A genome together with the name it is reported under.
#[derive(Clone, Debug)]
pub struct NamedGenome {
    pub name: String,
    pub genome: Genome,
}

/// What one pass over the table found for one genome.
#[derive(Clone, Debug)]
pub struct GenomeReport {
    /// The genome's name.
    pub name: String,
    /// The final counts of the pass.
    pub tally: MatchTally,
    /// The verdict derived from the counts.
    pub verdict: Verdict,
}

/// The conclusion over all genomes.
#[derive(Clone, Copy, Debug, PartialEq, Eq, Structural)]
pub enum AggregateResult {
    /// Exactly one genome matches: its place among the genomes and the
    /// coordinate convention found with it.
    UniqueMatch { index: usize, coordinate: Coordinate },
    /// No genome matches.
    NoMatch,
    /// More than one genome matches.
    Ambiguous,
}

/// The reports of all genomes, in the order given, and the conclusion.
#[derive(Clone, Debug)]
pub struct Summary {
    pub reports: Vec<GenomeReport>,
    pub result: AggregateResult,
}

/// How many of the first `n` verdicts accept their genome.
pub open spec fn count_matches(verdicts: Seq<Verdict>, n: int) -> nat
    decreases n,
{
    if n <= 0 {
        0
    } else {
        count_matches(verdicts, n - 1) + if verdicts[n - 1].genome_match == RefGenomeMatches::Yes {
            1nat
        } else {
            0nat
        }
    }
}

/// Whether `result` is the conclusion that `verdicts` call for: no match
/// where none accepts, the one accepting genome with its coordinate system
/// where exactly one does, ambiguity where several do.
pub open spec fn concludes(verdicts: Seq<Verdict>, result: AggregateResult) -> bool {
    let matches = count_matches(verdicts, verdicts.len() as int);
    match result {
        AggregateResult::NoMatch => matches == 0,
        AggregateResult::Ambiguous => matches > 1,
        AggregateResult::UniqueMatch { index, coordinate } => {
            &&& matches == 1
            &&& index < verdicts.len()
            &&& verdicts[index as int].genome_match == RefGenomeMatches::Yes
            &&& coordinate == verdicts[index as int].coordinate
        },
    }
}

/// The coordinate system reported with a conclusion: that of the matching
/// genome where exactly one matches, unsure otherwise.
pub open spec fn spec_reported_coordinate(result: AggregateResult) -> Coordinate {
    match result {
        AggregateResult::UniqueMatch { index, coordinate } => coordinate,
        _ => Coordinate::Unsure,
    }
}

/// The verdicts of a list of reports.
pub open spec fn report_verdicts(reports: Seq<GenomeReport>) -> Seq<Verdict> {
    Seq::new(reports.len(), |i: int| reports[i].verdict)
}

/// The final tally of one pass of the table over one genome, or the reason
/// why the pass could not be completed.
pub open spec fn spec_assess(
    header: Seq<Seq<char>>,
    rows: Seq<Seq<Seq<char>>>,
    contigs: Seq<ContigView>,
    overrides: ColumnOverridesView,
) -> Result<MatchTally, ScanError> {
    let chrom_names = spec_candidates(overrides.chrom, spec_default_chrom_names());
    let pos_names = spec_candidates(overrides.pos, spec_default_pos_names());
    let ref_names = spec_candidates(overrides.reference, spec_default_ref_names());
    match spec_first_unresolved(header, chrom_names, pos_names, ref_names) {
        Some(field) => Err(ScanError::MissingColumn(field)),
        None => spec_scan(
            spec_places(header, chrom_names, pos_names, ref_names),
            contigs,
            rows,
            rows.len() as int,
        ),
    }
}

/// Whether `report` is what a pass over the table gives for `source`.
pub open spec fn reports_on(
    report: GenomeReport,
    header: Seq<Seq<char>>,
    rows: Seq<Seq<Seq<char>>>,
    source: NamedGenome,
    overrides: ColumnOverridesView,
) -> bool {
    &&& report.name@ == source.name@
    &&& Ok::<MatchTally, ScanError>(report.tally) == spec_assess(
        header,
        rows,
        source.genome@,
        overrides,
    )
    &&& report.verdict == spec_classify(report.tally)
}

/// Whether `summary` holds, for each genome in order, the report of its
/// pass, and the conclusion that the reports' verdicts call for.
pub open spec fn summarizes(
    summary: Summary,
    header: Seq<Seq<char>>,
    rows: Seq<Seq<Seq<char>>>,
    sources: Seq<NamedGenome>,
    overrides: ColumnOverridesView,
) -> bool {
    &&& summary.reports.len() == sources.len()
    &&& forall|i: int|
        0 <= i < sources.len() ==> reports_on(
            #[trigger] summary.reports[i],
            header,
            rows,
            sources[i],
            overrides,
        )
    &&& concludes(report_verdicts(summary.reports@), summary.result)
}

/// Whether `e` is the error of the first genome, in order, whose pass
/// cannot be completed.
pub open spec fn first_failure(
    e: ScanError,
    header: Seq<Seq<char>>,
    rows: Seq<Seq<Seq<char>>>,
    sources: Seq<NamedGenome>,
    overrides: ColumnOverridesView,
) -> bool {
    exists|k: int|
        {
            &&& 0 <= k < sources.len()
            &&& spec_assess(header, rows, (#[trigger] sources[k]).genome@, overrides)
                == Err::<MatchTally, ScanError>(e)
            &&& forall|j: int|
                0 <= j < k ==> spec_assess(
                    header,
                    rows,
                    (#[trigger] sources[j]).genome@,
                    overrides,
                ) is Ok
        }
}

/// Two genomes that are both accepted make at least two matches.
pub proof fn lemma_two_matches(verdicts: Seq<Verdict>, i: int, j: int, n: int)
    requires
        0 <= i < j < n,
        verdicts[i].genome_match == RefGenomeMatches::Yes,
        verdicts[j].genome_match == RefGenomeMatches::Yes,
    ensures
        count_matches(verdicts, n) >= 2,
    decreases n,
{
    if j < n - 1 {
        lemma_two_matches(verdicts, i, j, n - 1);
    } else {
        lemma_one_match(verdicts, i, n - 1);
    }
}

/// An accepted genome makes at least one match.
pub proof fn lemma_one_match(verdicts: Seq<Verdict>, i: int, n: int)
    requires
        0 <= i < n,
        verdicts[i].genome_match == RefGenomeMatches::Yes,
    ensures
        count_matches(verdicts, n) >= 1,
    decreases n,
{
    if i < n - 1 {
        lemma_one_match(verdicts, i, n - 1);
    }
}

/// The conclusion depends on the verdicts alone: two conclusions drawn from
/// the same verdicts are the same.
pub proof fn lemma_conclusion_is_determined(
    verdicts: Seq<Verdict>,
    a: AggregateResult,
    b: AggregateResult,
)
    requires
        concludes(verdicts, a),
        concludes(verdicts, b),
    ensures
        a == b,
{
    if let AggregateResult::UniqueMatch { index: i, coordinate: _ } = a {
        if let AggregateResult::UniqueMatch { index: j, coordinate: _ } = b {
            if i < j {
                lemma_two_matches(verdicts, i as int, j as int, verdicts.len() as int);
            } else if j < i {
                lemma_two_matches(verdicts, j as int, i as int, verdicts.len() as int);
            }
        }
    }
}

/// With several accepted genomes, or with none, the reported coordinate
/// system is unsure, whatever the single verdicts say.
pub proof fn lemma_only_unique_match_names_convention(
    verdicts: Seq<Verdict>,
    result: AggregateResult,
)
    requires
        concludes(verdicts, result),
    ensures
        count_matches(verdicts, verdicts.len() as int) != 1 ==> spec_reported_coordinate(result)
            == Coordinate::Unsure,
        count_matches(verdicts, verdicts.len() as int) == 1 ==> result is UniqueMatch,
{
}

/// Running the same table over the same genome again gives the same counts
/// and the same verdict.
pub proof fn lemma_rerun_agrees(
    first: GenomeReport,
    second: GenomeReport,
    header: Seq<Seq<char>>,
    rows: Seq<Seq<Seq<char>>>,
    source: NamedGenome,
    overrides: ColumnOverridesView,
)
    requires
        reports_on(first, header, rows, source, overrides),
        reports_on(second, header, rows, source, overrides),
    ensures
        first.tally == second.tally,
        first.verdict == second.verdict,
        first.name@ == second.name@,
{
}

/// An owned copy of an optional name.
fn copy_name(name: &Option<String>) -> (copy: Option<String>)
    ensures
        copy == *name,
{
    match name {
        Some(n) => Some(n.clone()),
        None => None,
    }
}

/// The coordinate system to report with a conclusion.
pub fn reported_coordinate(result: &AggregateResult) -> (coordinate: Coordinate)
    ensures
        coordinate == spec_reported_coordinate(*result),
{
    match result {
        AggregateResult::UniqueMatch { index: _, coordinate } => *coordinate,
        _ => Coordinate::Unsure,
    }
}

/// The name of the one matching genome, where there is exactly one.
pub fn matched_genome_name(reports: &Vec<GenomeReport>, result: &AggregateResult) -> (name: Option<
    String,
>)
    ensures
        match *result {
            AggregateResult::UniqueMatch { index, coordinate } => if index < reports.len() {
                name matches Some(n) && n@ == reports[index as int].name@
            } else {
                name is None
            },
            _ => name is None,
        },
{
    match result {
        AggregateResult::UniqueMatch { index, coordinate: _ } => {
            if *index < reports.len() {
                Some(reports[*index].name.clone())
            } else {
                None
            }
        },
        _ => None,
    }
}

/// Combines the verdicts on all genomes into one conclusion.
pub fn aggregate(verdicts: &Vec<Verdict>) -> (result: AggregateResult)
    ensures
        concludes(verdicts@, result),
        result matches AggregateResult::UniqueMatch { index, coordinate } ==> forall|j: int|
            0 <= j < verdicts.len() && j != index ==> verdicts[j].genome_match
                != RefGenomeMatches::Yes,
{
    let mut matches: usize = 0;
    let mut first: usize = 0;
    let mut i: usize = 0;
    while i < verdicts.len()
        invariant
            i <= verdicts.len(),
            matches == count_matches(verdicts@, i as int),
            matches <= i,
            matches == 0 ==> forall|j: int|
                0 <= j < i ==> verdicts[j].genome_match != RefGenomeMatches::Yes,
            matches >= 1 ==> first < i && verdicts[first as int].genome_match
                == RefGenomeMatches::Yes,
            matches == 1 ==> forall|j: int|
                0 <= j < i && j != first ==> verdicts[j].genome_match != RefGenomeMatches::Yes,
        decreases verdicts.len() - i,
    {
        match verdicts[i].genome_match {
            RefGenomeMatches::Yes => {
                if matches == 0 {
                    first = i;
                }
                matches = matches + 1;
            },
            _ => {},
        }
        i = i + 1;
    }
    if matches == 0 {
        AggregateResult::NoMatch
    } else if matches == 1 {
        AggregateResult::UniqueMatch { index: first, coordinate: verdicts[first].coordinate }
    } else {
        AggregateResult::Ambiguous
    }
}

/// Runs one pass of the table over one genome: resolves the columns, scans
/// every row, and derives the verdict from the final tally.
pub fn assess_ref_genome_support(
    table: &VariantTable,
    source: &NamedGenome,
    overrides: &ColumnOverrides,
) -> (assessed: Result<GenomeReport, ScanError>)
    ensures
        assessed matches Ok(report) ==> reports_on(
            report,
            table@.header,
            table@.rows,
            *source,
            overrides@,
        ) && report.tally.wf(),
        assessed matches Err(e) ==> spec_assess(
            table@.header,
            table@.rows,
            source.genome@,
            overrides@,
        ) == Err::<MatchTally, ScanError>(e),
{
    let chrom_names = get_column_names(copy_name(&overrides.chrom), default_chrom_names());
    let pos_names = get_column_names(copy_name(&overrides.pos), default_pos_names());
    let ref_names = get_column_names(copy_name(&overrides.reference), default_ref_names());
    let cols = match resolve_columns(&table.header, &chrom_names, &pos_names, &ref_names) {
        Ok(cols) => cols,
        Err(field) => {
            return Err(ScanError::MissingColumn(field));
        },
    };
    let tally = match scan_variants(&cols.places, &source.genome, &table.rows) {
        Ok(tally) => tally,
        Err(e) => {
            return Err(e);
        },
    };
    let verdict = classify(&tally);
    Ok(GenomeReport { name: source.name.clone(), tally, verdict })
}

/// Runs a fresh pass of the table over every genome, in the order given, and
/// draws the conclusion from the verdicts. The first pass that cannot be
/// completed ends the run with its error.
pub fn assess_ref_genomes_support(
    table: &VariantTable,
    sources: &Vec<NamedGenome>,
    overrides: &ColumnOverrides,
) -> (assessed: Result<Summary, ScanError>)
    ensures
        assessed matches Ok(summary) ==> summarizes(
            summary,
            table@.header,
            table@.rows,
            sources@,
            overrides@,
        ),
        assessed matches Err(e) ==> first_failure(
            e,
            table@.header,
            table@.rows,
            sources@,
            overrides@,
        ),
{
    let mut reports: Vec<GenomeReport> = Vec::new();
    let mut verdicts: Vec<Verdict> = Vec::new();
    let mut i: usize = 0;
    while i < sources.len()
        invariant
            i <= sources.len(),
            reports.len() == i,
            verdicts.len() == i,
            forall|j: int|
                0 <= j < i ==> reports_on(
                    #[trigger] reports[j],
                    table@.header,
                    table@.rows,
                    sources[j],
                    overrides@,
                ),
            forall|j: int| 0 <= j < i ==> verdicts[j] == reports[j].verdict,
        decreases sources.len() - i,
    {
        match assess_ref_genome_support(table, &sources[i], overrides) {
            Ok(report) => {
                verdicts.push(report.verdict);
                reports.push(report);
            },
            Err(e) => {
                assert forall|j: int| 0 <= j < i implies spec_assess(
                    table@.header,
                    table@.rows,
                    (#[trigger] sources[j]).genome@,
                    overrides@,
                ) is Ok by {
                    assert(reports_on(
                        reports[j],
                        table@.header,
                        table@.rows,
                        sources[j],
                        overrides@,
                    ));
                }
                return Err(e);
            },
        }
        i = i + 1;
    }
    assert(verdicts@ =~= report_verdicts(reports@));
    let result = aggregate(&verdicts);
    Ok(Summary { reports, result })
}

} // verus!
