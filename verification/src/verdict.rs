//! Turning a finished tally into a verdict on one genome.

use vstd::prelude::*;
use vstd::string::*;
use crate::tally::MatchTally;

verus! {

/// The coordinate convention a table of variants appears to use.
#[derive(Clone, Copy, Debug, PartialEq, Eq, Structural)]
pub enum Coordinate {
    /// The first base of a sequence is position 0.
    Zero,
    /// The first base of a sequence is position 1.
    One,
    /// The tallies do not single out a convention.
    Unsure,
}

/// Whether the reference alleles of a table agree with a genome.
#[derive(Clone, Copy, Debug, PartialEq, Eq, Structural)]
pub enum RefGenomeMatches {
    /// Every tested record agrees under one convention.
    Yes,
    /// The two conventions tie and leave records unexplained.
    No,
    /// The tallies allow no conclusion.
    Unsure,
}

/// What was concluded about one genome.
#[derive(Clone, Copy, Debug, PartialEq, Eq, Structural)]
pub struct Verdict {
    pub coordinate: Coordinate,
    pub genome_match: RefGenomeMatches,
}

/// The words for a coordinate convention.
pub open spec fn spec_coordinate_label(coordinate: Coordinate) -> Seq<char> {
    match coordinate {
        Coordinate::Zero => "0-based"@,
        Coordinate::One => "1-based"@,
        Coordinate::Unsure => "Unclear"@,
    }
}

/// The words for a genome match.
pub open spec fn spec_match_label(genome_match: RefGenomeMatches) -> Seq<char> {
    match genome_match {
        RefGenomeMatches::Yes => "Perfectly aligns"@,
        RefGenomeMatches::No => "No, Ref mismatches found"@,
        RefGenomeMatches::Unsure => "Unclear"@,
    }
}

impl Coordinate {
    /// The convention in words, without decoration.
    pub fn label(&self) -> (text: String)
        ensures
            text@ == spec_coordinate_label(*self),
    {
        match self {
            Coordinate::Zero => String::from_str("0-based"),
            Coordinate::One => String::from_str("1-based"),
            Coordinate::Unsure => String::from_str("Unclear"),
        }
    }
}

impl RefGenomeMatches {
    /// The match in words, without decoration.
    pub fn label(&self) -> (text: String)
        ensures
            text@ == spec_match_label(*self),
    {
        match self {
            RefGenomeMatches::Yes => String::from_str("Perfectly aligns"),
            RefGenomeMatches::No => String::from_str("No, Ref mismatches found"),
            RefGenomeMatches::Unsure => String::from_str("Unclear"),
        }
    }
}

/// The larger of two counts.
pub open spec fn larger(a: int, b: int) -> int {
    if a >= b { a } else { b }
}

/// The verdict that a tally stands for.
///
/// Equal counts never name a convention; they rule the genome out when some
/// tested record matched under neither reading. Unequal counts name the
/// convention whose count covers every tested record, if there is one and at
/// least one record was tested.
pub open spec fn spec_classify(t: MatchTally) -> Verdict {
    if t.supporting_0based == t.supporting_1based {
        Verdict {
            coordinate: Coordinate::Unsure,
            genome_match: if t.variants_tested - larger(
                t.supporting_1based as int,
                t.supporting_0based as int,
            ) != 0 {
                RefGenomeMatches::No
            } else {
                RefGenomeMatches::Unsure
            },
        }
    } else if t.variants_tested != 0 && t.supporting_0based == t.variants_tested {
        Verdict { coordinate: Coordinate::Zero, genome_match: RefGenomeMatches::Yes }
    } else if t.variants_tested != 0 && t.supporting_1based == t.variants_tested {
        Verdict { coordinate: Coordinate::One, genome_match: RefGenomeMatches::Yes }
    } else {
        Verdict { coordinate: Coordinate::Unsure, genome_match: RefGenomeMatches::Unsure }
    }
}

/// Derives the verdict for one genome from its final tally.
pub fn classify(tally: &MatchTally) -> (v: Verdict)
    ensures
        v == spec_classify(*tally),
{
    let mut coordinate = Coordinate::Unsure;
    let mut genome_match = RefGenomeMatches::Unsure;
    if tally.supporting_0based != tally.supporting_1based {
        if tally.variants_tested != 0 {
            if tally.supporting_1based == tally.variants_tested {
                coordinate = Coordinate::One;
                genome_match = RefGenomeMatches::Yes;
            }
            if tally.supporting_0based == tally.variants_tested {
                coordinate = Coordinate::Zero;
                genome_match = RefGenomeMatches::Yes;
            }
        }
    } else {
        let explained: u64 = if tally.supporting_1based >= tally.supporting_0based {
            tally.supporting_1based
        } else {
            tally.supporting_0based
        };
        if tally.variants_tested != explained {
            genome_match = RefGenomeMatches::No;
        }
    }
    Verdict { coordinate, genome_match }
}

/// A genome is accepted only together with a definite convention, and a
/// definite convention is only ever reported for an accepted genome.
pub proof fn lemma_match_names_convention(t: MatchTally)
    ensures
        spec_classify(t).genome_match == RefGenomeMatches::Yes <==> spec_classify(t).coordinate
            != Coordinate::Unsure,
        spec_classify(t).coordinate == Coordinate::Zero ==> t.supporting_0based
            == t.variants_tested,
        spec_classify(t).coordinate == Coordinate::One ==> t.supporting_1based
            == t.variants_tested,
{
}

} // verus!
