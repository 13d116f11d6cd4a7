//! Eligibility of repositories for synchronization: forks, archived
//! repositories and excluded names are dropped; everything else passes
//! through in order.
use vstd::prelude::*;

use crate::exclusions::ExclusionList;
use crate::strutil::s_short_name;

verus! {

/// What the remote gateway reports about one repository.
#[derive(Debug)]
pub struct RepoSummary {
    /// The stable identifier the source platform assigned.
    pub id: String,
    /// The repository's short name.
    pub name: String,
    /// The owner-qualified name, `owner/name`.
    pub name_with_owner: String,
    /// The human description, when there is one.
    pub description: Option<String>,
    /// The canonical URL.
    pub url: String,
    /// Whether the repository is a fork.
    pub is_fork: bool,
    /// Whether the repository is archived.
    pub is_archived: bool,
}

/// Mathematical image of [`RepoSummary`].
pub struct RepoSummaryView {
    pub id: Seq<char>,
    pub name: Seq<char>,
    pub name_with_owner: Seq<char>,
    pub description: Option<Seq<char>>,
    pub url: Seq<char>,
    pub is_fork: bool,
    pub is_archived: bool,
}

impl View for RepoSummary {
    type V = RepoSummaryView;

    open spec fn view(&self) -> RepoSummaryView {
        RepoSummaryView {
            id: self.id@,
            name: self.name@,
            name_with_owner: self.name_with_owner@,
            description: self.description.deep_view(),
            url: self.url@,
            is_fork: self.is_fork,
            is_archived: self.is_archived,
        }
    }
}

impl DeepView for RepoSummary {
    type V = RepoSummaryView;

    open spec fn deep_view(&self) -> RepoSummaryView {
        self.view()
    }
}

impl Clone for RepoSummary {
    fn clone(&self) -> (r: Self)
        ensures
            r@ == self@,
    {
        RepoSummary {
            id: self.id.clone(),
            name: self.name.clone(),
            name_with_owner: self.name_with_owner.clone(),
            description: match &self.description {
                Some(d) => Some(d.clone()),
                None => None,
            },
            url: self.url.clone(),
            is_fork: self.is_fork,
            is_archived: self.is_archived,
        }
    }
}

/// Whether a repository survives the filter: it is no fork, not archived,
/// and neither its owner-qualified name nor its short name is excluded.
pub open spec fn s_keep_repo(r: RepoSummaryView, excluded: Seq<Seq<char>>) -> bool {
    &&& !r.is_fork
    &&& !r.is_archived
    &&& !excluded.contains(r.name_with_owner)
    &&& !excluded.contains(s_short_name(r.name_with_owner))
}

/// Keeps the eligible repositories, in their given order; nothing is
/// reordered or deduplicated.
pub fn filter_repositories(candidates: &Vec<RepoSummary>, excluded: &ExclusionList) -> (r: Vec<
    RepoSummary,
>)
    ensures
        r.deep_view() == candidates.deep_view().filter(
            |rv: RepoSummaryView| s_keep_repo(rv, excluded@),
        ),
{
    let n = candidates.len();
    let mut out: Vec<RepoSummary> = Vec::new();
    let mut i: usize = 0;
    proof {
        reveal(Seq::filter);
        assert(candidates.deep_view().take(0) =~= Seq::<RepoSummaryView>::empty());
        assert(out.deep_view() =~= candidates.deep_view().take(0).filter(
            |rv: RepoSummaryView| s_keep_repo(rv, excluded@),
        ));
    }
    while i < n
        invariant
            i <= n,
            n == candidates@.len(),
            out.deep_view() == candidates.deep_view().take(i as int).filter(
                |rv: RepoSummaryView| s_keep_repo(rv, excluded@),
            ),
        decreases n - i,
    {
        let c = &candidates[i];
        proof {
            reveal(Seq::filter);
            assert(candidates.deep_view().take(i + 1).drop_last() =~= candidates.deep_view().take(
                i as int,
            ));
            assert(candidates.deep_view().take(i + 1).last() == c@);
        }
        let eligible = !c.is_fork && !c.is_archived;
        if eligible {
            let nwo_excluded = excluded.contains_key(c.name_with_owner.as_str());
            let sn = crate::strutil::short_name(c.name_with_owner.as_str());
            let sn_excluded = excluded.contains_key(sn.as_str());
            if !nwo_excluded && !sn_excluded {
                let ghost prefix = out.deep_view();
                out.push(c.clone());
                proof {
                    assert(out.deep_view() =~= prefix.push(c@));
                }
            }
        }
        i = i + 1;
    }
    proof {
        assert(candidates.deep_view().take(n as int) =~= candidates.deep_view());
    }
    out
}

/// Filter exclusion: a summary whose owner-qualified name or short name is
/// excluded is never present in the filter's output, regardless of its fork
/// or archive flags.
pub proof fn lemma_filter_excludes_listed(
    candidates: Seq<RepoSummaryView>,
    excluded: Seq<Seq<char>>,
    r: RepoSummaryView,
)
    requires
        excluded.contains(r.name_with_owner) || excluded.contains(s_short_name(r.name_with_owner)),
    ensures
        !candidates.filter(|rv: RepoSummaryView| s_keep_repo(rv, excluded)).contains(r),
{
    let pred = |rv: RepoSummaryView| s_keep_repo(rv, excluded);
    let out = candidates.filter(pred);
    if out.contains(r) {
        let i = choose|i: int| 0 <= i < out.len() && out[i] == r;
        candidates.lemma_filter_pred(pred, i);
        assert(s_keep_repo(r, excluded));
        assert(false);
    }
}

/// Filter fork/archive: a fork or an archived repository is excluded even
/// when no exclusion key names it.
pub proof fn lemma_filter_excludes_fork_archived(
    candidates: Seq<RepoSummaryView>,
    excluded: Seq<Seq<char>>,
    r: RepoSummaryView,
)
    requires
        r.is_fork || r.is_archived,
    ensures
        !candidates.filter(|rv: RepoSummaryView| s_keep_repo(rv, excluded)).contains(r),
{
    let pred = |rv: RepoSummaryView| s_keep_repo(rv, excluded);
    let out = candidates.filter(pred);
    if out.contains(r) {
        let i = choose|i: int| 0 <= i < out.len() && out[i] == r;
        candidates.lemma_filter_pred(pred, i);
        assert(s_keep_repo(r, excluded));
        assert(false);
    }
}

} // verus!
