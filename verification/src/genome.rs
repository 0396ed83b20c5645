//! A reference genome held in memory: named sequences of bases.

use vstd::prelude::*;
use crate::columns::{spec_position_of, texts};
use crate::record::{spec_upper, upper};

verus! {

/// One named sequence of a genome.
#[derive(Clone, Debug)]
pub struct Contig {
    /// The sequence's name, such as `chr1`.
    pub name: String,
    /// Its bases, one byte each, the first at position 0.
    pub bases: Vec<u8>,
}

/// A collection of named sequences that can be read at any position.
#[derive(Clone, Debug)]
pub struct Genome {
    pub contigs: Vec<Contig>,
}

/// A named sequence as plain values.
pub struct ContigView {
    pub name: Seq<char>,
    pub bases: Seq<u8>,
}

impl View for Contig {
    type V = ContigView;

    open spec fn view(&self) -> ContigView {
        ContigView { name: self.name@, bases: self.bases@ }
    }
}

impl View for Genome {
    type V = Seq<ContigView>;

    open spec fn view(&self) -> Seq<ContigView> {
        Seq::new(self.contigs.len() as nat, |i: int| self.contigs[i]@)
    }
}

/// Why a stretch of sequence could not be fetched.
#[derive(Clone, Copy, Debug, PartialEq, Eq, Structural)]
pub enum SequenceFetchError {
    /// The genome holds no sequence of that name.
    UnknownSequence,
    /// The interval does not lie within the sequence.
    OutOfRange,
}

/// The names of the sequences, in the genome's order.
pub open spec fn contig_names(contigs: Seq<ContigView>) -> Seq<Seq<char>> {
    Seq::new(contigs.len(), |i: int| contigs[i].name)
}

/// The bases of `bases` from `begin` to `end`, both included, upper-cased
/// where `upper` asks for it.
pub open spec fn spec_slice(bases: Seq<u8>, begin: int, end: int, upper: bool) -> Seq<u8> {
    Seq::new(
        (end - begin + 1) as nat,
        |k: int|
            if upper {
                spec_upper(bases[begin + k])
            } else {
                bases[begin + k]
            },
    )
}

/// What a fetch of the closed interval from `begin` to `end` of the
/// sequence `name` gives. Where several sequences share the name, the first
/// one answers.
pub open spec fn spec_fetch_seq(
    contigs: Seq<ContigView>,
    name: Seq<char>,
    begin: int,
    end: int,
    upper: bool,
) -> Result<Seq<u8>, SequenceFetchError> {
    let at = spec_position_of(contig_names(contigs), name);
    if !contig_names(contigs).contains(name) {
        Err(SequenceFetchError::UnknownSequence)
    } else if !(0 <= begin <= end < contigs[at].bases.len()) {
        Err(SequenceFetchError::OutOfRange)
    } else {
        Ok(spec_slice(contigs[at].bases, begin, end, upper))
    }
}

/// A fetch's outcome with the bases as a sequence.
pub open spec fn fetched_view(fetched: Result<Vec<u8>, SequenceFetchError>) -> Result<
    Seq<u8>,
    SequenceFetchError,
> {
    match fetched {
        Ok(bases) => Ok(bases@),
        Err(e) => Err(e),
    }
}

impl Genome {
    /// The names of the genome's sequences.
    pub open spec fn names(&self) -> Seq<Seq<char>> {
        contig_names(self@)
    }
}

/// Lists the names of all sequences of a genome, in its own order.
pub fn get_all_chromosomes(genome: &Genome) -> (names: Vec<String>)
    ensures
        texts(names@) == genome.names(),
{
    let mut names: Vec<String> = Vec::new();
    let mut i: usize = 0;
    while i < genome.contigs.len()
        invariant
            i <= genome.contigs.len(),
            names.len() == i,
            forall|k: int| 0 <= k < i ==> names[k]@ == genome.contigs[k].name@,
        decreases genome.contigs.len() - i,
    {
        names.push(genome.contigs[i].name.clone());
        i = i + 1;
    }
    names
}

/// Finds the first sequence named `seqname`.
pub fn find_contig(genome: &Genome, seqname: &String) -> (at: Option<usize>)
    ensures
        at is Some <==> genome.names().contains(seqname@),
        at matches Some(i) ==> i == spec_position_of(genome.names(), seqname@) && i
            < genome.contigs.len() && genome.contigs[i as int].name@ == seqname@,
{
    let ghost names = genome.names();
    let mut i: usize = 0;
    assert(names.skip(0) =~= names);
    while i < genome.contigs.len()
        invariant
            i <= genome.contigs.len(),
            names == genome.names(),
            forall|k: int| 0 <= k < i ==> names[k] != seqname@,
            spec_position_of(names, seqname@) == i + spec_position_of(
                names.skip(i as int),
                seqname@,
            ),
        decreases genome.contigs.len() - i,
    {
        if genome.contigs[i].name == *seqname {
            return Some(i);
        }
        assert(names.skip(i as int).skip(1) =~= names.skip(i + 1));
        i = i + 1;
    }
    None
}

/// Fetches the closed interval from `begin` to `end` of the sequence
/// `seqname`, positions counted from 0, in upper case if `upper` is set.
pub fn fetch_seq(genome: &Genome, seqname: &String, begin: u64, end: u64, upper: bool) -> (fetched:
    Result<Vec<u8>, SequenceFetchError>)
    ensures
        fetched_view(fetched) == spec_fetch_seq(
            genome@,
            seqname@,
            begin as int,
            end as int,
            upper,
        ),
{
    let at = match find_contig(genome, seqname) {
        Some(at) => at,
        None => {
            return Err(SequenceFetchError::UnknownSequence);
        },
    };
    let bases = &genome.contigs[at].bases;
    if begin > end || end >= bases.len() as u64 {
        return Err(SequenceFetchError::OutOfRange);
    }
    let first: usize = begin as usize;
    let last: usize = end as usize;
    let mut out: Vec<u8> = Vec::new();
    let mut i: usize = first;
    while i <= last
        invariant
            first <= i <= last + 1,
            last < bases.len(),
            out.len() == i - first,
            forall|k: int|
                0 <= k < i - first ==> out[k] == (if upper {
                    spec_upper(bases[first + k])
                } else {
                    bases[first + k]
                }),
        decreases last + 1 - i,
    {
        let b = bases[i];
        out.push(if upper { self::upper(b) } else { b });
        i = i + 1;
    }
    assert(out@ =~= spec_slice(bases@, begin as int, end as int, upper));
    Ok(out)
}

} // verus!
