//! A snapshot of the repository's named references and working-copy
//! pointers, held as plain values.

use vstd::prelude::*;

use crate::ids::{contains_id, same_id};

verus! {

/// A named reference (a bookmark or a tag) and the commits its local target
/// adds. A conflicted reference adds several.
pub struct NamedTarget {
    pub name: String,
    pub added_ids: Vec<Vec<u8>>,
}

/// The repository view as of one query: local bookmarks and tags in the
/// view's order, and the working-copy commit of the current workspace, if it
/// has one.
pub struct RepoView {
    pub bookmarks: Vec<NamedTarget>,
    pub tags: Vec<NamedTarget>,
    pub wc_commit_id: Option<Vec<u8>>,
}

/// Whether `ids` holds the byte string `id`.
pub open spec fn holds_id(ids: Seq<Vec<u8>>, id: Seq<u8>) -> bool {
    exists|k: int| 0 <= k < ids.len() && (#[trigger] ids[k])@ == id
}

/// Whether the reference's target adds exactly the commit `id`.
pub open spec fn targets(r: NamedTarget, id: Seq<u8>) -> bool {
    holds_id(r.added_ids@, id)
}

/// The names of the references that target exactly `id`, concatenated in
/// order; empty when none does.
pub open spec fn names_targeting(refs: Seq<NamedTarget>, id: Seq<u8>) -> Seq<char>
    decreases refs.len(),
{
    if refs.len() == 0 {
        Seq::empty()
    } else {
        names_targeting(refs.drop_last(), id) + if targets(refs.last(), id) {
            refs.last().name@
        } else {
            Seq::empty()
        }
    }
}

/// Whether `id` is the working-copy commit of the current workspace.
pub open spec fn is_wc_commit(view: RepoView, id: Seq<u8>) -> bool {
    match view.wc_commit_id {
        Some(w) => w@ == id,
        None => false,
    }
}

/// The concatenated names of the references in `refs` that target exactly
/// `id`.
pub fn collect_names(refs: &Vec<NamedTarget>, id: &Vec<u8>) -> (r: String)
    ensures
        r@ == names_targeting(refs@, id@),
{
    let mut out = String::new();
    let mut i: usize = 0;
    while i < refs.len()
        invariant
            i <= refs@.len(),
            out@ == names_targeting(refs@.take(i as int), id@),
        decreases refs@.len() - i,
    {
        assert(refs@.take(i + 1).drop_last() == refs@.take(i as int));
        if contains_id(&refs[i].added_ids, id) {
            out.append(refs[i].name.as_str());
        }
        i = i + 1;
    }
    assert(refs@.take(refs@.len() as int) == refs@);
    out
}

impl RepoView {
    /// The local bookmarks whose target is exactly the commit `id`; a
    /// bookmark on an ancestor or a descendant is not among them.
    pub fn bookmarks_for_commit(&self, id: &Vec<u8>) -> (r: String)
        ensures
            r@ == names_targeting(self.bookmarks@, id@),
    {
        collect_names(&self.bookmarks, id)
    }

    /// The tags that explicitly record the commit `id` as a target; a tag
    /// from which `id` is merely reachable is not among them.
    pub fn tags_for_commit(&self, id: &Vec<u8>) -> (r: String)
        ensures
            r@ == names_targeting(self.tags@, id@),
    {
        collect_names(&self.tags, id)
    }

    /// Whether `id` is the working-copy commit of the current workspace.
    pub fn is_wc_commit_id(&self, id: &Vec<u8>) -> (r: bool)
        ensures
            r == is_wc_commit(*self, id@),
    {
        match &self.wc_commit_id {
            Some(w) => same_id(w, id),
            None => false,
        }
    }
}

/// A reference whose target does not add `id` contributes nothing for `id`,
/// wherever it stands.
pub proof fn lemma_names_skip_untargeted(refs: Seq<NamedTarget>, id: Seq<u8>)
    requires
        forall|k: int| 0 <= k < refs.len() ==> !targets(#[trigger] refs[k], id),
    ensures
        names_targeting(refs, id) == Seq::<char>::empty(),
    decreases refs.len(),
{
    if refs.len() > 0 {
        assert(!targets(refs[refs.len() - 1], id));
        lemma_names_skip_untargeted(refs.drop_last(), id);
    }
}

} // verus!
