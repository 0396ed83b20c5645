use genomeguesser::genome::{
    fetch_seq, find_contig, get_all_chromosomes, Contig, Genome, SequenceFetchError,
};
use genomeguesser::record::{base_supports, normalize_allele, parse_position, upper};

fn small_genome() -> Genome {
    Genome {
        contigs: vec![
            Contig { name: "chr1".to_string(), bases: b"ACGTacgtNN".to_vec() },
            Contig { name: "chr2".to_string(), bases: b"T".to_vec() },
        ],
    }
}

#[test]
fn positions_in_plain_decimal() {
    assert_eq!(parse_position(&"0".to_string()), Some(0));
    assert_eq!(parse_position(&"12".to_string()), Some(12));
    assert_eq!(parse_position(&"007".to_string()), Some(7));
    assert_eq!(parse_position(&"+7".to_string()), Some(7));
}

#[test]
fn position_limits() {
    assert_eq!(parse_position(&"18446744073709551615".to_string()), Some(u64::MAX));
    assert_eq!(parse_position(&"18446744073709551616".to_string()), None);
    assert_eq!(parse_position(&"99999999999999999999999".to_string()), None);
    assert_eq!(parse_position(&"00000000000000000000000001".to_string()), Some(1));
}

#[test]
fn malformed_positions() {
    for bad in ["", "+", "-1", "1.5", " 1", "1 ", "12a", "++1", "one", "１２"] {
        assert_eq!(parse_position(&bad.to_string()), None);
    }
}

#[test]
fn single_bases_are_upper_cased() {
    assert_eq!(normalize_allele(&"A".to_string()), Some(b'A'));
    assert_eq!(normalize_allele(&"c".to_string()), Some(b'C'));
    assert_eq!(normalize_allele(&"g".to_string()), Some(b'G'));
    assert_eq!(normalize_allele(&"T".to_string()), Some(b'T'));
}

#[test]
fn other_alleles_are_filtered_out() {
    for bad in ["", "N", "n", "AG", "-", "AA", "U", "é", "."] {
        assert_eq!(normalize_allele(&bad.to_string()), None);
    }
}

#[test]
fn upper_touches_only_lower_case_letters() {
    assert_eq!(upper(b'a'), b'A');
    assert_eq!(upper(b'z'), b'Z');
    assert_eq!(upper(b'A'), b'A');
    assert_eq!(upper(b'`'), b'`');
    assert_eq!(upper(b'{'), b'{');
    assert_eq!(upper(0), 0);
    assert_eq!(upper(255), 255);
}

#[test]
fn fetched_base_is_compared_case_aside() {
    assert!(base_supports(&b"a".to_vec(), b'A'));
    assert!(base_supports(&b"A".to_vec(), b'A'));
    assert!(!base_supports(&b"C".to_vec(), b'A'));
    assert!(!base_supports(&b"".to_vec(), b'A'));
    assert!(!base_supports(&b"AA".to_vec(), b'A'));
}

#[test]
fn chromosomes_in_genome_order() {
    assert_eq!(get_all_chromosomes(&small_genome()), vec!["chr1".to_string(), "chr2".to_string()]);
    assert_eq!(get_all_chromosomes(&Genome { contigs: Vec::new() }), Vec::<String>::new());
}

#[test]
fn fetch_single_base() {
    let g = small_genome();
    assert_eq!(fetch_seq(&g, &"chr1".to_string(), 0, 0, true), Ok(b"A".to_vec()));
    assert_eq!(fetch_seq(&g, &"chr1".to_string(), 5, 5, true), Ok(b"C".to_vec()));
    assert_eq!(fetch_seq(&g, &"chr1".to_string(), 5, 5, false), Ok(b"c".to_vec()));
    assert_eq!(fetch_seq(&g, &"chr2".to_string(), 0, 0, true), Ok(b"T".to_vec()));
}

#[test]
fn fetch_closed_interval() {
    let g = small_genome();
    assert_eq!(fetch_seq(&g, &"chr1".to_string(), 2, 5, true), Ok(b"GTAC".to_vec()));
    assert_eq!(fetch_seq(&g, &"chr1".to_string(), 2, 5, false), Ok(b"GTac".to_vec()));
    assert_eq!(fetch_seq(&g, &"chr1".to_string(), 0, 9, true), Ok(b"ACGTACGTNN".to_vec()));
}

#[test]
fn fetch_failures() {
    let g = small_genome();
    assert_eq!(
        fetch_seq(&g, &"chrX".to_string(), 0, 0, true),
        Err(SequenceFetchError::UnknownSequence)
    );
    assert_eq!(fetch_seq(&g, &"chr1".to_string(), 10, 10, true), Err(SequenceFetchError::OutOfRange));
    assert_eq!(fetch_seq(&g, &"chr2".to_string(), 1, 1, true), Err(SequenceFetchError::OutOfRange));
    assert_eq!(fetch_seq(&g, &"chr1".to_string(), 3, 2, true), Err(SequenceFetchError::OutOfRange));
    assert_eq!(
        fetch_seq(&g, &"chr1".to_string(), u64::MAX, u64::MAX, true),
        Err(SequenceFetchError::OutOfRange)
    );
}

#[test]
fn contig_is_found_by_name() {
    let g = small_genome();
    assert_eq!(find_contig(&g, &"chr1".to_string()), Some(0));
    assert_eq!(find_contig(&g, &"chr2".to_string()), Some(1));
    assert_eq!(find_contig(&g, &"chr3".to_string()), None);
    assert_eq!(find_contig(&g, &"CHR1".to_string()), None);
}

#[test]
fn first_of_two_contigs_with_one_name_answers() {
    let g = Genome {
        contigs: vec![
            Contig { name: "chr1".to_string(), bases: b"AA".to_vec() },
            Contig { name: "chr1".to_string(), bases: b"CCCC".to_vec() },
        ],
    };
    assert_eq!(find_contig(&g, &"chr1".to_string()), Some(0));
    assert_eq!(fetch_seq(&g, &"chr1".to_string(), 1, 1, true), Ok(b"A".to_vec()));
    assert_eq!(fetch_seq(&g, &"chr1".to_string(), 3, 3, true), Err(SequenceFetchError::OutOfRange));
}
