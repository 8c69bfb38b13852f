//! The commit log of one query: records assembled in evaluation order and
//! capped at a fixed number of commits.

use vstd::prelude::*;

use crate::commit::{build_commit, commit_record, Commit, CommitModel, RawCommit};
use crate::timestamp::{in_date_range, TimestampError};
use crate::view::{is_wc_commit, RepoView};

verus! {

/// The most commits one query returns.
pub const UPPER_LIMIT: usize = 3000;

/// The records of `raws`, in order, each with its protected-heads lookup.
pub open spec fn log_records(
    raws: Seq<RawCommit>,
    lookups: Seq<Option<bool>>,
    view: RepoView,
) -> Seq<CommitModel> {
    Seq::new(raws.len(), |i: int| commit_record(raws[i], lookups[i], view))
}

/// How many records are marked as a working-copy commit.
pub open spec fn working_copy_count(records: Seq<CommitModel>) -> nat
    decreases records.len(),
{
    if records.len() == 0 {
        0
    } else {
        working_copy_count(records.drop_last()) + if records.last().is_working_copy {
            1nat
        } else {
            0nat
        }
    }
}

/// No two of `raws` share a commit id, as the evaluator's results do not.
pub open spec fn distinct_ids(raws: Seq<RawCommit>) -> bool {
    forall|i: int, j: int|
        0 <= i < j < raws.len() ==> (#[trigger] raws[i]).commit_id@ != (#[trigger] raws[j]).commit_id@
}

/// Whether one of `raws` has the commit id `id`.
pub open spec fn has_commit(raws: Seq<RawCommit>, id: Seq<u8>) -> bool {
    exists|i: int| 0 <= i < raws.len() && (#[trigger] raws[i]).commit_id@ == id
}

/// The commits of one query, each assembled against the query's view, in the
/// order in which the filter evaluation yielded them.
pub struct CommitLog {
    view: RepoView,
    commits: Vec<Commit>,
    sources: Ghost<Seq<RawCommit>>,
    lookups: Ghost<Seq<Option<bool>>>,
}

impl CommitLog {
    /// Each record was assembled from the commit and lookup taken in its
    /// place, and the log is within its cap.
    pub closed spec fn wf(&self) -> bool {
        &&& self.sources@.len() <= UPPER_LIMIT
        &&& self.lookups@.len() == self.sources@.len()
        &&& self.commits@.len() == self.sources@.len()
        &&& forall|i: int|
            0 <= i < self.commits@.len() ==> (#[trigger] self.commits@[i])@ == commit_record(
                self.sources@[i],
                self.lookups@[i],
                self.view,
            )
    }

    /// The view the records are assembled against.
    pub closed spec fn repo_view(&self) -> RepoView {
        self.view
    }

    /// The stored commits taken so far, in order.
    pub closed spec fn sources(&self) -> Seq<RawCommit> {
        self.sources@
    }

    /// The protected-heads lookups of the commits taken so far, in order.
    pub closed spec fn lookups(&self) -> Seq<Option<bool>> {
        self.lookups@
    }

    /// The records of the log.
    pub open spec fn records(&self) -> Seq<CommitModel> {
        log_records(self.sources(), self.lookups(), self.repo_view())
    }

    /// An empty log over `view`.
    pub fn new(view: RepoView) -> (r: CommitLog)
        ensures
            r.wf(),
            r.repo_view() == view,
            r.sources() == Seq::<RawCommit>::empty(),
            r.lookups() == Seq::<Option<bool>>::empty(),
    {
        CommitLog { view, commits: Vec::new(), sources: Ghost(Seq::empty()), lookups: Ghost(Seq::empty()) }
    }

    /// The number of commits taken so far.
    pub fn len(&self) -> (r: usize)
        requires
            self.wf(),
        ensures
            r == self.sources().len(),
            r <= UPPER_LIMIT,
    {
        self.commits.len()
    }

    /// Whether the log has reached its cap and takes no more commits.
    pub fn is_full(&self) -> (r: bool)
        requires
            self.wf(),
        ensures
            r == (self.sources().len() >= UPPER_LIMIT),
    {
        self.commits.len() >= UPPER_LIMIT
    }

    /// Takes the next evaluated commit with its protected-heads lookup. On an
    /// out-of-range timestamp the log is left as it was and the error is
    /// returned, to abort the query; a timestamp within `in_date_range` is
    /// always taken.
    pub fn push(&mut self, raw: RawCommit, immutable: Option<bool>) -> (r: Result<(), TimestampError>)
        requires
            old(self).wf(),
            old(self).sources().len() < UPPER_LIMIT,
            raw.author_timestamp.wf(),
        ensures
            final(self).wf(),
            final(self).repo_view() == old(self).repo_view(),
            r is Ok ==> final(self).sources() == old(self).sources().push(raw)
                && final(self).lookups() == old(self).lookups().push(immutable),
            r is Err ==> final(self).sources() == old(self).sources()
                && final(self).lookups() == old(self).lookups()
                && r == Err::<(), TimestampError>(TimestampError::OutOfRange),
            in_date_range(raw.author_timestamp.millis) ==> r is Ok,
    {
        match build_commit(&raw, immutable, &self.view) {
            Ok(c) => {
                self.commits.push(c);
                self.sources = Ghost(self.sources@.push(raw));
                self.lookups = Ghost(self.lookups@.push(immutable));
                assert(forall|i: int|
                    0 <= i < self.commits@.len() ==> (#[trigger] self.commits@[i])@
                        == commit_record(self.sources@[i], self.lookups@[i], self.view));
                Ok(())
            },
            Err(e) => Err(e),
        }
    }

    /// The records of the log, in evaluation order; never more than
    /// `UPPER_LIMIT`.
    pub fn into_commits(self) -> (r: Vec<Commit>)
        requires
            self.wf(),
        ensures
            r@.len() == self.sources().len(),
            r@.len() <= UPPER_LIMIT,
            forall|i: int| 0 <= i < r@.len() ==> (#[trigger] r@[i])@ == self.records()[i],
    {
        self.commits
    }
}

/// The log of a query is a function of the commits it evaluated, their
/// protected-heads lookups and the view: two logs fed the same give the same
/// records, in the same order.
pub proof fn lemma_log_determined(a: &CommitLog, b: &CommitLog)
    requires
        a.sources() == b.sources(),
        a.lookups() == b.lookups(),
        a.repo_view() == b.repo_view(),
    ensures
        a.records() == b.records(),
{
}

/// Working-copy marks: among records of distinct commits, a current
/// workspace without a working copy marks none, and one with a working copy
/// marks exactly one record when its commit is among them and none otherwise.
pub proof fn lemma_working_copy_marks(
    raws: Seq<RawCommit>,
    lookups: Seq<Option<bool>>,
    view: RepoView,
)
    requires
        distinct_ids(raws),
    ensures
        view.wc_commit_id is None ==> working_copy_count(log_records(raws, lookups, view)) == 0,
        view.wc_commit_id matches Some(w) ==> working_copy_count(log_records(raws, lookups, view))
            == if has_commit(raws, w@) {
            1nat
        } else {
            0nat
        },
    decreases raws.len(),
{
    if raws.len() > 0 {
        let n = raws.len() - 1;
        let prefix = raws.drop_last();
        assert(distinct_ids(prefix)) by {
            assert forall|i: int, j: int| 0 <= i < j < prefix.len() implies (#[trigger] prefix[i]).commit_id@
                != (#[trigger] prefix[j]).commit_id@ by {
                assert(prefix[i] == raws[i] && prefix[j] == raws[j]);
            }
        }
        lemma_working_copy_marks(prefix, lookups, view);
        let recs = log_records(raws, lookups, view);
        assert(recs.drop_last() =~= log_records(prefix, lookups, view));
        assert(recs.last().is_working_copy == is_wc_commit(view, raws[n].commit_id@));
        if let Some(wv) = view.wc_commit_id {
            let w = wv@;
            if raws[n].commit_id@ == w {
                assert(has_commit(raws, w));
                assert(!has_commit(prefix, w)) by {
                    if has_commit(prefix, w) {
                        let i = choose|i: int| 0 <= i < prefix.len() && (#[trigger] prefix[i]).commit_id@ == w;
                        assert(prefix[i] == raws[i]);
                    }
                }
            } else {
                if has_commit(raws, w) {
                    let i = choose|i: int| 0 <= i < raws.len() && (#[trigger] raws[i]).commit_id@ == w;
                    assert(i < n);
                    assert(prefix[i] == raws[i]);
                }
                if has_commit(prefix, w) {
                    let i = choose|i: int| 0 <= i < prefix.len() && (#[trigger] prefix[i]).commit_id@ == w;
                    assert(prefix[i] == raws[i]);
                }
            }
        }
    } else {
        assert(log_records(raws, lookups, view).len() == 0);
    }
}

} // verus!
