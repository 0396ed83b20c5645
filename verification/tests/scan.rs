use genomeguesser::arbiter::{
    assess_ref_genome_support, assess_ref_genomes_support, AggregateResult, ColumnOverrides,
    NamedGenome, VariantTable,
};
use genomeguesser::columns::{ColumnPlaces, Field};
use genomeguesser::error::{at_row, RecordFault, ScanError};
use genomeguesser::genome::{get_all_chromosomes, Contig, Genome};
use genomeguesser::scanner::{
    compare_fetched, compare_in_genome, plan_record, position_before, scan_variants, Comparison,
    RecordPlan,
};
use genomeguesser::table::{assess_table, assess_tsv, AssessError};
use genomeguesser::tally::MatchTally;
use genomeguesser::verdict::{Coordinate, RefGenomeMatches};

fn genome(contigs: &[(&str, &str)]) -> Genome {
    Genome {
        contigs: contigs
            .iter()
            .map(|(name, bases)| Contig { name: name.to_string(), bases: bases.as_bytes().to_vec() })
            .collect(),
    }
}

fn named(name: &str, contigs: &[(&str, &str)]) -> NamedGenome {
    NamedGenome { name: name.to_string(), genome: genome(contigs) }
}

fn table(header: &[&str], rows: &[&[&str]]) -> VariantTable {
    VariantTable {
        header: header.iter().map(|s| s.to_string()).collect(),
        rows: rows.iter().map(|r| r.iter().map(|s| s.to_string()).collect()).collect(),
    }
}

fn row(fields: &[&str]) -> Vec<String> {
    fields.iter().map(|s| s.to_string()).collect()
}

fn defaults() -> ColumnOverrides {
    ColumnOverrides { chrom: None, pos: None, reference: None }
}

fn tally(tested: u64, zero: u64, one: u64, missing: u64) -> MatchTally {
    MatchTally {
        variants_tested: tested,
        supporting_0based: zero,
        supporting_1based: one,
        chromosome_missing: missing,
    }
}

const PLACES: ColumnPlaces = ColumnPlaces { chrom: 0, pos: 1, reference: 2 };

#[test]
fn plan_for_each_kind_of_record() {
    let registry = vec!["chr1".to_string()];
    assert_eq!(
        plan_record(&PLACES, &registry, &row(&["chr1", "5", "a"])),
        Ok(RecordPlan::Compare { allele: b'A', position: 5 })
    );
    assert_eq!(plan_record(&PLACES, &registry, &row(&["chr1", "5", "AG"])), Ok(RecordPlan::Skip));
    assert_eq!(
        plan_record(&PLACES, &registry, &row(&["chr9", "5", "T"])),
        Ok(RecordPlan::ChromosomeMissing)
    );
    assert_eq!(
        plan_record(&PLACES, &registry, &row(&["chr1", "x", "T"])),
        Err(RecordFault::MalformedPosition)
    );
    assert_eq!(plan_record(&PLACES, &registry, &row(&["chr1", "5"])), Err(RecordFault::Truncated));
}

#[test]
fn malformed_position_is_a_fault_even_for_a_filtered_allele() {
    let registry = vec!["chr1".to_string()];
    assert_eq!(
        plan_record(&PLACES, &registry, &row(&["chr9", "", "NN"])),
        Err(RecordFault::MalformedPosition)
    );
}

#[test]
fn filtered_allele_is_skipped_before_the_chromosome_is_looked_up() {
    let registry = vec!["chr1".to_string()];
    assert_eq!(plan_record(&PLACES, &registry, &row(&["chr9", "3", "N"])), Ok(RecordPlan::Skip));
}

#[test]
fn faults_carry_their_row() {
    assert_eq!(at_row(RecordFault::Truncated, 3), ScanError::TruncatedRecord(3));
    assert_eq!(at_row(RecordFault::MalformedPosition, 0), ScanError::MalformedPosition(0));
    assert_eq!(at_row(RecordFault::SequenceFetch, 9), ScanError::SequenceFetch(9));
}

#[test]
fn position_one_reads_the_first_base_as_one_based() {
    let g = genome(&[("chr1", "AC")]);
    assert_eq!(
        compare_in_genome(&g, &"chr1".to_string(), b'A', 1),
        Ok(Comparison { zero_based: false, one_based: true })
    );
    assert_eq!(
        compare_in_genome(&g, &"chr1".to_string(), b'C', 1),
        Ok(Comparison { zero_based: true, one_based: false })
    );
}

#[test]
fn fetched_bases_are_compared_with_the_allele() {
    assert_eq!(
        compare_fetched(b'A', &b"a".to_vec(), &b"C".to_vec()),
        Ok(Comparison { zero_based: true, one_based: false })
    );
    assert_eq!(
        compare_fetched(b'T', &b"G".to_vec(), &b"T".to_vec()),
        Ok(Comparison { zero_based: false, one_based: true })
    );
}

#[test]
fn fetch_without_exactly_one_base_has_failed() {
    assert_eq!(compare_fetched(b'A', &b"".to_vec(), &b"A".to_vec()), Err(RecordFault::SequenceFetch));
    assert_eq!(compare_fetched(b'A', &b"A".to_vec(), &b"".to_vec()), Err(RecordFault::SequenceFetch));
    assert_eq!(
        compare_fetched(b'A', &b"AA".to_vec(), &b"A".to_vec()),
        Err(RecordFault::SequenceFetch)
    );
}

#[test]
fn one_based_position_is_one_less() {
    assert_eq!(position_before(1), Some(0));
    assert_eq!(position_before(42), Some(41));
    assert_eq!(position_before(u64::MAX), Some(u64::MAX - 1));
    assert_eq!(position_before(0), None);
}

#[test]
fn position_zero_has_no_one_based_reading() {
    let g = genome(&[("chr1", "AC")]);
    assert_eq!(compare_in_genome(&g, &"chr1".to_string(), b'A', 0), Err(RecordFault::SequenceFetch));
    let rows = vec![row(&["chr1", "1", "C"]), row(&["chr1", "0", "A"])];
    assert_eq!(scan_variants(&PLACES, &g, &rows), Err(ScanError::SequenceFetch(1)));
}

#[test]
fn position_past_the_end_fails_the_fetch() {
    let g = genome(&[("chr1", "AC")]);
    assert_eq!(compare_in_genome(&g, &"chr1".to_string(), b'C', 2), Err(RecordFault::SequenceFetch));
    assert_eq!(compare_in_genome(&g, &"chrX".to_string(), b'C', 1), Err(RecordFault::SequenceFetch));
}

#[test]
fn both_readings_may_match() {
    let g = genome(&[("chr1", "GGg")]);
    assert_eq!(
        compare_in_genome(&g, &"chr1".to_string(), b'G', 2),
        Ok(Comparison { zero_based: true, one_based: true })
    );
    assert_eq!(
        compare_in_genome(&g, &"chr1".to_string(), b'T', 2),
        Ok(Comparison { zero_based: false, one_based: false })
    );
}

#[test]
fn zero_based_table_is_recognised() {
    let t = table(
        &["chrom", "pos", "ref"],
        &[&["chr1", "1", "C"], &["chr1", "2", "G"], &["chr1", "3", "T"]],
    );
    let report =
        assess_ref_genome_support(&t, &named("g.fa", &[("chr1", "ACGTACGT")]), &defaults()).unwrap();
    assert_eq!(report.name, "g.fa");
    assert_eq!(report.tally, tally(3, 3, 0, 0));
    assert_eq!(report.verdict.coordinate, Coordinate::Zero);
    assert_eq!(report.verdict.genome_match, RefGenomeMatches::Yes);
}

#[test]
fn one_based_table_is_recognised() {
    let t = table(
        &["Chrom", "Position", "Reference_Allele", "alt"],
        &[&["chr1", "1", "a", "T"], &["chr1", "2", "c", "T"], &["chr2", "3", "A", "C"]],
    );
    let g = named("g.fa", &[("chr1", "ACGT"), ("chr2", "TTAG")]);
    let report = assess_ref_genome_support(&t, &g, &defaults()).unwrap();
    assert_eq!(report.tally, tally(3, 0, 3, 0));
    assert_eq!(report.verdict.coordinate, Coordinate::One);
    assert_eq!(report.verdict.genome_match, RefGenomeMatches::Yes);
}

#[test]
fn one_genome_of_two_matches() {
    let t = table(
        &["chrom", "pos", "ref"],
        &[&["chr1", "1", "C"], &["chr1", "2", "G"], &["chr1", "3", "T"]],
    );
    let sources = vec![named("first.fa", &[("chr1", "ACGTA")]), named("second.fa", &[("chr1", "TTTTA")])];
    let summary = assess_ref_genomes_support(&t, &sources, &defaults()).unwrap();
    assert_eq!(summary.reports.len(), 2);
    assert_eq!(summary.reports[0].verdict.genome_match, RefGenomeMatches::Yes);
    assert_eq!(summary.reports[1].tally, tally(3, 1, 1, 0));
    assert_eq!(summary.reports[1].verdict.genome_match, RefGenomeMatches::No);
    assert_eq!(summary.result, AggregateResult::UniqueMatch { index: 0, coordinate: Coordinate::Zero });
    assert_eq!(summary.reports[0].name, "first.fa");
}

#[test]
fn two_matching_genomes_are_ambiguous() {
    let t = table(&["chrom", "pos", "ref"], &[&["chr1", "1", "C"], &["chr1", "2", "G"]]);
    let sources = vec![named("a.fa", &[("chr1", "ACGT")]), named("b.fa", &[("chr1", "TCGA")])];
    let summary = assess_ref_genomes_support(&t, &sources, &defaults()).unwrap();
    assert_eq!(summary.reports[0].verdict.genome_match, RefGenomeMatches::Yes);
    assert_eq!(summary.reports[1].verdict.genome_match, RefGenomeMatches::Yes);
    assert_eq!(summary.reports[0].verdict.coordinate, Coordinate::Zero);
    assert_eq!(summary.result, AggregateResult::Ambiguous);
    assert_eq!(genomeguesser::arbiter::reported_coordinate(&summary.result), Coordinate::Unsure);
}

#[test]
fn missing_chromosome_is_counted_and_not_fetched() {
    let g = genome(&[("chr1", "ACGT")]);
    let rows = vec![row(&["chrUn", "9999", "A"]), row(&["chr1", "1", "C"])];
    assert_eq!(scan_variants(&PLACES, &g, &rows), Ok(tally(2, 1, 0, 1)));
    let rows = vec![row(&["chrUn", "0", "A"])];
    assert_eq!(scan_variants(&PLACES, &g, &rows), Ok(tally(1, 0, 0, 1)));
}

#[test]
fn two_base_allele_is_left_out_of_every_count() {
    let g = genome(&[("chr1", "ACGT")]);
    let rows = vec![row(&["chr1", "1", "AG"])];
    assert_eq!(scan_variants(&PLACES, &g, &rows), Ok(tally(0, 0, 0, 0)));
    let rows = vec![row(&["chr1", "1", "AG"]), row(&["chr1", "2", "G"]), row(&["chr1", "0", "N"])];
    assert_eq!(scan_variants(&PLACES, &g, &rows), Ok(tally(1, 1, 0, 0)));
}

#[test]
fn tested_counts_compared_and_missing_rows() {
    let g = genome(&[("chr1", "AACCGGTT")]);
    let rows = vec![
        row(&["chr1", "1", "A"]),
        row(&["chr1", "2", "A"]),
        row(&["chr1", "3", "t"]),
        row(&["chr7", "3", "t"]),
        row(&["chr1", "3", ""]),
        row(&["chr1", "4", "c"]),
    ];
    assert_eq!(scan_variants(&PLACES, &g, &rows), Ok(tally(5, 1, 3, 1)));
}

#[test]
fn empty_table_gives_empty_tally() {
    let g = genome(&[("chr1", "ACGT")]);
    assert_eq!(scan_variants(&PLACES, &g, &Vec::new()), Ok(tally(0, 0, 0, 0)));
    assert_eq!(get_all_chromosomes(&g), vec!["chr1".to_string()]);
}

#[test]
fn scanning_twice_gives_the_same_report() {
    let t = table(
        &["chrom", "pos", "ref"],
        &[&["chr1", "1", "C"], &["chr2", "2", "G"], &["chr1", "3", "A"], &["chr1", "2", "NN"]],
    );
    let g = named("g.fa", &[("chr1", "ACGA")]);
    let first = assess_ref_genome_support(&t, &g, &defaults()).unwrap();
    let second = assess_ref_genome_support(&t, &g, &defaults()).unwrap();
    assert_eq!(first.tally, second.tally);
    assert_eq!(first.verdict, second.verdict);
    assert_eq!(first.name, second.name);
    assert_eq!(first.tally, tally(3, 2, 0, 1));
}

#[test]
fn scan_stops_at_first_fault() {
    let g = genome(&[("chr1", "ACGT")]);
    let rows = vec![row(&["chr1", "1", "C"]), row(&["chr1", "abc", "C"]), row(&["chr1"])];
    assert_eq!(scan_variants(&PLACES, &g, &rows), Err(ScanError::MalformedPosition(1)));
    let rows = vec![row(&["chr1", "1", "C"]), row(&["chr1"]), row(&["chr1", "abc", "C"])];
    assert_eq!(scan_variants(&PLACES, &g, &rows), Err(ScanError::TruncatedRecord(1)));
    let rows = vec![row(&["chr1", "4", "C"])];
    assert_eq!(scan_variants(&PLACES, &g, &rows), Err(ScanError::SequenceFetch(0)));
}

#[test]
fn unresolved_column_ends_the_pass() {
    let t = table(&["chrom", "start", "ref"], &[&["chr1", "1", "C"]]);
    let g = named("g.fa", &[("chr1", "ACGT")]);
    assert_eq!(
        assess_ref_genome_support(&t, &g, &defaults()).err(),
        Some(ScanError::MissingColumn(Field::Pos))
    );
    let with_start =
        ColumnOverrides { chrom: None, pos: Some("start".to_string()), reference: None };
    assert_eq!(assess_ref_genome_support(&t, &g, &with_start).unwrap().tally, tally(1, 1, 0, 0));
}

#[test]
fn user_name_shuts_out_the_defaults() {
    let t = table(&["chrom", "pos", "ref"], &[&["chr1", "1", "C"]]);
    let g = named("g.fa", &[("chr1", "ACGT")]);
    let o = ColumnOverrides { chrom: Some("contig".to_string()), pos: None, reference: None };
    assert_eq!(
        assess_ref_genome_support(&t, &g, &o).err(),
        Some(ScanError::MissingColumn(Field::Chrom))
    );
}

#[test]
fn first_failing_genome_ends_the_run() {
    let t = table(&["chrom", "pos", "ref"], &[&["chr1", "1", "C"], &["chr1", "4", "A"]]);
    let sources = vec![named("long.fa", &[("chr1", "ACGTA")]), named("short.fa", &[("chr1", "ACG")])];
    assert_eq!(
        assess_ref_genomes_support(&t, &sources, &defaults()).err(),
        Some(ScanError::SequenceFetch(1))
    );
}

#[test]
fn no_genome_gives_no_match() {
    let t = table(&["chrom", "pos", "ref"], &[&["chr1", "1", "C"]]);
    let summary = assess_ref_genomes_support(&t, &Vec::new(), &defaults()).unwrap();
    assert_eq!(summary.reports.len(), 0);
    assert_eq!(summary.result, AggregateResult::NoMatch);
}

#[test]
fn table_is_read_from_tab_separated_text() {
    let text = "id\tCHROM\tPOS\tREF\nv1\tchr1\t1\tA\nv2\tchr1\t2\tc\nv3\tchr1\t3\tGT\nv4\tchrM\t3\tg\n";
    let sources = vec![named("g.fa", &[("chr1", "ACGT")])];
    let summary = assess_tsv(text.as_bytes(), &sources, &defaults()).unwrap();
    assert_eq!(summary.reports[0].tally, tally(3, 0, 2, 1));
    assert_eq!(summary.reports[0].verdict.genome_match, RefGenomeMatches::Unsure);
    assert_eq!(summary.result, AggregateResult::NoMatch);
}

#[test]
fn text_with_one_based_positions() {
    let text = "chrom\tpos\tref\nchr1\t1\tA\nchr1\t2\tC\nchr1\t4\tT\n";
    let sources = vec![named("x.fa", &[("chr1", "GGGGG")]), named("y.fa", &[("chr1", "ACGTA")])];
    let summary = assess_tsv(text.as_bytes(), &sources, &defaults()).unwrap();
    assert_eq!(summary.reports[0].tally, tally(3, 0, 0, 0));
    assert_eq!(summary.reports[1].tally, tally(3, 0, 3, 0));
    assert_eq!(summary.result, AggregateResult::UniqueMatch { index: 1, coordinate: Coordinate::One });
}

#[test]
fn ragged_text_is_unreadable() {
    let text = "chrom\tpos\tref\nchr1\t1\n";
    let sources = vec![named("g.fa", &[("chr1", "ACGT")])];
    assert_eq!(
        assess_tsv(text.as_bytes(), &sources, &defaults()).err(),
        Some(AssessError::UnreadableTable)
    );
}

#[test]
fn empty_text_has_no_columns() {
    let sources = vec![named("g.fa", &[("chr1", "ACGT")])];
    assert_eq!(
        assess_tsv(b"", &sources, &defaults()).err(),
        Some(AssessError::Scan(ScanError::MissingColumn(Field::Chrom)))
    );
}

#[test]
fn commas_do_not_separate_fields() {
    let text = "chrom,pos,ref\nchr1,1,A\n";
    let sources = vec![named("g.fa", &[("chr1", "ACGT")])];
    assert_eq!(
        assess_tsv(text.as_bytes(), &sources, &defaults()).err(),
        Some(AssessError::Scan(ScanError::MissingColumn(Field::Chrom)))
    );
}

#[test]
fn missing_table_cannot_be_assessed() {
    let sources = vec![named("g.fa", &[("chr1", "ACGT")])];
    assert_eq!(assess_table(None, &sources, &defaults()).err(), Some(AssessError::UnreadableTable));
    let t = table(&["chrom", "pos", "ref"], &[&["chr1", "x", "C"]]);
    assert_eq!(
        assess_table(Some(t), &sources, &defaults()).err(),
        Some(AssessError::Scan(ScanError::MalformedPosition(0)))
    );
}

#[test]
fn row_by_row_decisions_agree_with_the_scan() {
    let g = genome(&[("chr1", "AACCGGTT"), ("chr2", "tttt")]);
    let rows = vec![
        row(&["chr1", "1", "A"]),
        row(&["chr2", "2", "T"]),
        row(&["chr9", "2", "T"]),
        row(&["chr1", "7", "g"]),
        row(&["chr1", "7", "GG"]),
    ];
    let registry = get_all_chromosomes(&g);
    let mut t = MatchTally::new();
    for r in rows.iter() {
        match plan_record(&PLACES, &registry, r).unwrap() {
            RecordPlan::Skip => {}
            RecordPlan::ChromosomeMissing => t.record_missing(),
            RecordPlan::Compare { allele, position } => {
                let c = compare_in_genome(&g, &r[0], allele, position).unwrap();
                t.record_compared(c.zero_based, c.one_based);
            }
        }
    }
    assert_eq!(t, tally(4, 2, 2, 1));
    assert_eq!(scan_variants(&PLACES, &g, &rows), Ok(t));
}
