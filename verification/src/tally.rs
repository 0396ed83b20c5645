//! Per-genome counters kept while a table of variants is scanned.

use vstd::prelude::*;

verus! {

/// Running counts for one pass over the variants against one genome.
#[derive(Clone, Copy, Debug, PartialEq, Eq, Structural)]
pub struct MatchTally {
    /// Records that passed the allele filter.
    pub variants_tested: u64,
    /// Tested records whose allele equals the base at the position as given.
    pub supporting_0based: u64,
    /// Tested records whose allele equals the base one before the position.
    pub supporting_1based: u64,
    /// Tested records whose chromosome the genome does not hold.
    pub chromosome_missing: u64,
}

impl MatchTally {
    /// No partial count exceeds the number of records tested, and a record
    /// counted as missing is never also counted as a match.
    pub open spec fn wf(&self) -> bool {
        &&& self.supporting_0based + self.chromosome_missing <= self.variants_tested
        &&& self.supporting_1based + self.chromosome_missing <= self.variants_tested
    }

    /// The tally before any record was seen.
    pub open spec fn spec_new() -> MatchTally {
        MatchTally {
            variants_tested: 0,
            supporting_0based: 0,
            supporting_1based: 0,
            chromosome_missing: 0,
        }
    }

    /// The tally after one more record whose chromosome is absent.
    pub open spec fn spec_with_missing(self) -> MatchTally {
        MatchTally {
            variants_tested: (self.variants_tested + 1) as u64,
            supporting_0based: self.supporting_0based,
            supporting_1based: self.supporting_1based,
            chromosome_missing: (self.chromosome_missing + 1) as u64,
        }
    }

    /// The tally after one more record that was compared with the genome:
    /// `hit0` says the base at the given position equals the allele, `hit1`
    /// says the base one before it does.
    pub open spec fn spec_with_compared(self, hit0: bool, hit1: bool) -> MatchTally {
        MatchTally {
            variants_tested: (self.variants_tested + 1) as u64,
            supporting_0based: if hit0 {
                (self.supporting_0based + 1) as u64
            } else {
                self.supporting_0based
            },
            supporting_1based: if hit1 {
                (self.supporting_1based + 1) as u64
            } else {
                self.supporting_1based
            },
            chromosome_missing: self.chromosome_missing,
        }
    }

    /// An empty tally.
    pub fn new() -> (t: MatchTally)
        ensures
            t == MatchTally::spec_new(),
            t.wf(),
    {
        MatchTally {
            variants_tested: 0,
            supporting_0based: 0,
            supporting_1based: 0,
            chromosome_missing: 0,
        }
    }

    /// Counts a record whose chromosome the genome does not hold.
    pub fn record_missing(&mut self)
        requires
            old(self).wf(),
            old(self).variants_tested < u64::MAX,
        ensures
            *final(self) == old(self).spec_with_missing(),
            final(self).wf(),
            final(self).variants_tested == old(self).variants_tested + 1,
            final(self).chromosome_missing == old(self).chromosome_missing + 1,
    {
        self.variants_tested = self.variants_tested + 1;
        self.chromosome_missing = self.chromosome_missing + 1;
    }

    /// Counts a record that was compared with the genome under both readings
    /// of its position.
    pub fn record_compared(&mut self, hit0: bool, hit1: bool)
        requires
            old(self).wf(),
            old(self).variants_tested < u64::MAX,
        ensures
            *final(self) == old(self).spec_with_compared(hit0, hit1),
            final(self).wf(),
            final(self).variants_tested == old(self).variants_tested + 1,
            final(self).supporting_0based == old(self).supporting_0based + (if hit0 { 1int } else { 0int }),
            final(self).supporting_1based == old(self).supporting_1based + (if hit1 { 1int } else { 0int }),
            final(self).chromosome_missing == old(self).chromosome_missing,
    {
        self.variants_tested = self.variants_tested + 1;
        if hit0 {
            self.supporting_0based = self.supporting_0based + 1;
        }
        if hit1 {
            self.supporting_1based = self.supporting_1based + 1;
        }
    }
}

} // verus!
