//! The enriched commit record handed to the presentation layer, and how one
//! is assembled from a stored commit and the repository view.

use vstd::prelude::*;

use crate::ids::{change_id_text, commit_id_hex, hex_text, reverse_hex_text};
use crate::timestamp::{absolute_timestamp_text, in_date_range, Timestamp, TimestampError};
use crate::view::{is_wc_commit, names_targeting, RepoView};

verus! {

/// One commit of the log, with everything the caller shows about it.
pub struct Commit {
    pub change_id: String,
    pub commit_id: String,
    pub author_email: String,
    pub timestamp: String,
    pub parents: Vec<String>,
    pub is_immutable: bool,
    pub is_conflict: bool,
    pub description: String,
    pub bookmarks: String,
    pub tags: String,
    pub is_working_copy: bool,
}

/// The mathematical content of a [`Commit`].
pub ghost struct CommitModel {
    pub change_id: Seq<char>,
    pub commit_id: Seq<char>,
    pub author_email: Seq<char>,
    pub timestamp: Seq<char>,
    pub parents: Seq<Seq<char>>,
    pub is_immutable: bool,
    pub is_conflict: bool,
    pub description: Seq<char>,
    pub bookmarks: Seq<char>,
    pub tags: Seq<char>,
    pub is_working_copy: bool,
}

/// The texts of a sequence of strings.
pub open spec fn texts(v: Seq<String>) -> Seq<Seq<char>> {
    v.map_values(|s: String| s@)
}

impl View for Commit {
    type V = CommitModel;

    open spec fn view(&self) -> CommitModel {
        CommitModel {
            change_id: self.change_id@,
            commit_id: self.commit_id@,
            author_email: self.author_email@,
            timestamp: self.timestamp@,
            parents: texts(self.parents@),
            is_immutable: self.is_immutable,
            is_conflict: self.is_conflict,
            description: self.description@,
            bookmarks: self.bookmarks@,
            tags: self.tags@,
            is_working_copy: self.is_working_copy,
        }
    }
}

/// A commit as the store holds it: ids as raw bytes, parents in the order
/// recorded when the commit was created.
pub struct RawCommit {
    pub change_id: Vec<u8>,
    pub commit_id: Vec<u8>,
    pub author_email: String,
    pub author_timestamp: Timestamp,
    pub parent_ids: Vec<Vec<u8>>,
    pub has_conflict: bool,
    pub description: String,
}

/// The hex texts of the parent ids, in recorded order.
pub open spec fn parent_texts(ids: Seq<Vec<u8>>) -> Seq<Seq<char>> {
    ids.map_values(|id: Vec<u8>| hex_text(id@))
}

/// Immutability as classified from the protected-heads lookup: its answer
/// where it gave one, and immutable where it could not decide.
pub open spec fn immutable_from(lookup: Option<bool>) -> bool {
    match lookup {
        Some(b) => b,
        None => true,
    }
}

/// The record for `raw`, given its timestamp text, the protected-heads
/// lookup for it and the view.
pub open spec fn commit_model(
    raw: RawCommit,
    timestamp: Seq<char>,
    immutable: Option<bool>,
    view: RepoView,
) -> CommitModel {
    CommitModel {
        change_id: reverse_hex_text(raw.change_id@),
        commit_id: hex_text(raw.commit_id@),
        author_email: raw.author_email@,
        timestamp,
        parents: parent_texts(raw.parent_ids@),
        is_immutable: immutable_from(immutable),
        is_conflict: raw.has_conflict,
        description: raw.description@,
        bookmarks: names_targeting(view.bookmarks@, raw.commit_id@),
        tags: names_targeting(view.tags@, raw.commit_id@),
        is_working_copy: is_wc_commit(view, raw.commit_id@),
    }
}

/// The record for `raw` with its timestamp in the absolute text form.
pub open spec fn commit_record(raw: RawCommit, immutable: Option<bool>, view: RepoView) -> CommitModel {
    commit_model(
        raw,
        absolute_timestamp_text(
            raw.author_timestamp.millis as int,
            raw.author_timestamp.tz_offset as int,
        ),
        immutable,
        view,
    )
}

/// Classifies a commit from the protected-heads lookup. A failed lookup
/// (`None`) classifies it immutable, so that no commit is under-protected.
pub fn classify_immutable(lookup: Option<bool>) -> (r: bool)
    ensures
        r == immutable_from(lookup),
{
    match lookup {
        Some(b) => b,
        None => true,
    }
}

/// The hex texts of `ids`, in order.
pub fn parent_hexes(ids: &Vec<Vec<u8>>) -> (r: Vec<String>)
    ensures
        texts(r@) == parent_texts(ids@),
{
    let mut out: Vec<String> = Vec::new();
    let mut i: usize = 0;
    while i < ids.len()
        invariant
            i <= ids@.len(),
            out@.len() == i,
            texts(out@) == parent_texts(ids@.take(i as int)),
        decreases ids@.len() - i,
    {
        let ghost before = out@;
        out.push(commit_id_hex(&ids[i]));
        assert forall|k: int| 0 <= k < i implies texts(out@)[k] == parent_texts(
            ids@.take(i + 1),
        )[k] by {
            assert(out@[k] == before[k]);
            assert(texts(before)[k] == parent_texts(ids@.take(i as int))[k]);
        }
        assert(texts(out@) =~= parent_texts(ids@.take(i + 1)));
        i = i + 1;
    }
    assert(ids@.take(ids@.len() as int) == ids@);
    out
}

/// Assembles the record of `raw` from its formatted timestamp, the
/// protected-heads lookup for it and the repository view.
pub fn enrich_commit(
    raw: &RawCommit,
    timestamp: String,
    immutable: Option<bool>,
    view: &RepoView,
) -> (r: Commit)
    ensures
        r@ == commit_model(*raw, timestamp@, immutable, *view),
{
    Commit {
        change_id: change_id_text(&raw.change_id),
        commit_id: commit_id_hex(&raw.commit_id),
        author_email: raw.author_email.clone(),
        timestamp,
        parents: parent_hexes(&raw.parent_ids),
        is_immutable: classify_immutable(immutable),
        is_conflict: raw.has_conflict,
        description: raw.description.clone(),
        bookmarks: view.bookmarks_for_commit(&raw.commit_id),
        tags: view.tags_for_commit(&raw.commit_id),
        is_working_copy: view.is_wc_commit_id(&raw.commit_id),
    }
}

/// Formats the author timestamp of `raw` and assembles its record; fails only
/// where the timestamp is out of range, and never within `in_date_range`.
pub fn build_commit(raw: &RawCommit, immutable: Option<bool>, view: &RepoView) -> (r: Result<
    Commit,
    TimestampError,
>)
    requires
        raw.author_timestamp.wf(),
    ensures
        r matches Ok(c) ==> c@ == commit_record(*raw, immutable, *view),
        r matches Err(e) ==> e == TimestampError::OutOfRange,
        in_date_range(raw.author_timestamp.millis) ==> r is Ok,
{
    match raw.author_timestamp.format_absolute() {
        Ok(text) => Ok(enrich_commit(raw, text, immutable, view)),
        Err(e) => Err(e),
    }
}

} // verus!
