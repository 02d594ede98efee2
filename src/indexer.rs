use vstd::prelude::*;

verus! {

/// What became of one filesystem entry met during an indexing run.
#[derive(Clone, Copy, Debug, PartialEq, Eq, Structural)]
pub enum EntryOutcome {
    Directory,
    Hidden,
    DisallowedExtension,
    Unreadable,
    Oversize,
    EmbeddingFailed,
    StoreFailed,
    Indexed,
}

impl EntryOutcome {
    /// Whether the entry was a file that ended up skipped.
    pub open spec fn is_skipped(self) -> bool {
        !(self is Directory) && !(self is Indexed)
    }
}

/// Number of entries of `s` that were indexed.
pub open spec fn indexed_in(s: Seq<EntryOutcome>) -> nat
    decreases s.len(),
{
    if s.len() == 0 {
        0
    } else {
        indexed_in(s.drop_last()) + if s.last() is Indexed {
            1nat
        } else {
            0nat
        }
    }
}

/// Number of entries of `s` that were skipped.
pub open spec fn skipped_in(s: Seq<EntryOutcome>) -> nat
    decreases s.len(),
{
    if s.len() == 0 {
        0
    } else {
        skipped_in(s.drop_last()) + if s.last().is_skipped() {
            1nat
        } else {
            0nat
        }
    }
}

/// Number of entries of `s` that were not directories.
pub open spec fn files_in(s: Seq<EntryOutcome>) -> nat
    decreases s.len(),
{
    if s.len() == 0 {
        0
    } else {
        files_in(s.drop_last()) + if s.last() is Directory {
            0nat
        } else {
            1nat
        }
    }
}

/// The counts an indexing run reports.
#[derive(Clone, Copy, Debug, PartialEq, Eq, Structural)]
pub struct IndexSummary {
    /// Files embedded and stored.
    pub indexed_count: usize,
    /// Files passed over or that failed on the way.
    pub skipped_count: usize,
}

impl IndexSummary {
    /// The counts before any entry is met.
    pub fn new() -> (r: IndexSummary)
        ensures
            r.indexed_count == 0,
            r.skipped_count == 0,
    {
        IndexSummary { indexed_count: 0, skipped_count: 0 }
    }

    /// The counts after one more entry: an indexed file adds to the indexed
    /// count, a directory to neither, any other outcome to the skipped count.
    pub open spec fn after(self, outcome: EntryOutcome) -> IndexSummary {
        IndexSummary {
            indexed_count: if outcome is Indexed {
                (self.indexed_count + 1) as usize
            } else {
                self.indexed_count
            },
            skipped_count: if outcome.is_skipped() {
                (self.skipped_count + 1) as usize
            } else {
                self.skipped_count
            },
        }
    }

    /// Counts one more entry.
    pub fn record(&mut self, outcome: EntryOutcome)
        requires
            old(self).indexed_count + old(self).skipped_count < usize::MAX,
        ensures
            *final(self) == old(self).after(outcome),
    {
        match outcome {
            EntryOutcome::Directory => {},
            EntryOutcome::Indexed => {
                self.indexed_count = self.indexed_count + 1;
            },
            _ => {
                self.skipped_count = self.skipped_count + 1;
            },
        }
    }
}

proof fn lemma_counts_bounded(s: Seq<EntryOutcome>)
    ensures
        indexed_in(s) + skipped_in(s) <= s.len(),
    decreases s.len(),
{
    if s.len() > 0 {
        lemma_counts_bounded(s.drop_last());
    }
}

/// Folds the outcomes of a run, in order, into its counts.
pub fn summarize(outcomes: &Vec<EntryOutcome>) -> (r: IndexSummary)
    ensures
        r.indexed_count == indexed_in(outcomes@),
        r.skipped_count == skipped_in(outcomes@),
{
    let mut summary = IndexSummary::new();
    let mut i: usize = 0;
    while i < outcomes.len()
        invariant
            i <= outcomes.len(),
            summary.indexed_count == indexed_in(outcomes@.subrange(0, i as int)),
            summary.skipped_count == skipped_in(outcomes@.subrange(0, i as int)),
        decreases outcomes.len() - i,
    {
        proof {
            lemma_counts_bounded(outcomes@.subrange(0, i as int));
            assert(outcomes@.subrange(0, i + 1).drop_last() == outcomes@.subrange(0, i as int));
        }
        summary.record(outcomes[i]);
        i = i + 1;
    }
    proof {
        assert(outcomes@.subrange(0, i as int) == outcomes@);
    }
    summary
}

/// Every entry that is not a directory is counted exactly once: as indexed or
/// as skipped.
pub proof fn lemma_every_file_counted(s: Seq<EntryOutcome>)
    ensures
        indexed_in(s) + skipped_in(s) == files_in(s),
    decreases s.len(),
{
    if s.len() > 0 {
        lemma_every_file_counted(s.drop_last());
    }
}

/// In a run over files that all get indexed but one, which cannot be read,
/// that one is skipped and all the others are indexed.
pub proof fn lemma_one_unreadable_file(s: Seq<EntryOutcome>, k: int)
    requires
        0 <= k < s.len(),
        s[k] == EntryOutcome::Unreadable,
        forall|i: int| 0 <= i < s.len() && i != k ==> s[i] == EntryOutcome::Indexed,
    ensures
        indexed_in(s) == s.len() - 1,
        skipped_in(s) == 1,
    decreases s.len(),
{
    if k < s.len() - 1 {
        lemma_one_unreadable_file(s.drop_last(), k);
    } else {
        lemma_all_indexed(s.drop_last());
    }
}

proof fn lemma_all_indexed(s: Seq<EntryOutcome>)
    requires
        forall|i: int| 0 <= i < s.len() ==> s[i] == EntryOutcome::Indexed,
    ensures
        indexed_in(s) == s.len(),
        skipped_in(s) == 0,
    decreases s.len(),
{
    if s.len() > 0 {
        lemma_all_indexed(s.drop_last());
    }
}

} // verus!
