//! Reconciliation of the store against the repositories that currently carry
//! a usable configuration.
//!
//! The store is modelled as a sequence of records with distinct identifiers.
//! A synchronization run deletes every record whose identifier is no longer
//! among the configured repositories, then upserts each configured
//! repository: an existing record is updated in place, a new one is
//! appended.  A failing upsert is recorded and skipped; it never aborts the
//! run.
use vstd::prelude::*;

use crate::config::MosaicConfigView;
use crate::config::ResolvedConfig;
use crate::config::ResolvedConfigView;
use crate::error::AppError;
use crate::filter::RepoSummary;
use crate::filter::RepoSummaryView;

verus! {

/// One persisted repository record.
#[derive(Debug)]
pub struct RepoRecord {
    /// The stable identifier the source platform assigned.
    pub github_id: String,
    /// The repository's short name.
    pub name: String,
    /// The owner-qualified name.
    pub name_with_owner: String,
    /// The human description, when there is one.
    pub description: Option<String>,
    /// The canonical URL.
    pub url: String,
    /// The resolved configuration carried by the record.  The job only ever
    /// writes records that carry one; it never writes an implicit absence.
    pub config: Option<ResolvedConfig>,
    /// When the record was last written, as seconds of the store's clock.
    pub last_updated: i64,
}

/// Mathematical image of [`RepoRecord`].
pub struct RepoRecordView {
    pub github_id: Seq<char>,
    pub name: Seq<char>,
    pub name_with_owner: Seq<char>,
    pub description: Option<Seq<char>>,
    pub url: Seq<char>,
    pub config: Option<ResolvedConfigView>,
    pub last_updated: i64,
}

impl View for RepoRecord {
    type V = RepoRecordView;

    open spec fn view(&self) -> RepoRecordView {
        RepoRecordView {
            github_id: self.github_id@,
            name: self.name@,
            name_with_owner: self.name_with_owner@,
            description: self.description.deep_view(),
            url: self.url@,
            config: self.config.deep_view(),
            last_updated: self.last_updated,
        }
    }
}

impl DeepView for RepoRecord {
    type V = RepoRecordView;

    open spec fn deep_view(&self) -> RepoRecordView {
        self.view()
    }
}

/// Whether some record in `store` carries `id`.
pub open spec fn s_has_id(store: Seq<RepoRecordView>, id: Seq<char>) -> bool {
    exists|i: int| 0 <= i < store.len() && store[i].github_id == id
}

/// No two records carry the same identifier.
pub open spec fn s_unique_ids(store: Seq<RepoRecordView>) -> bool {
    forall|i: int, j: int|
        0 <= i < j < store.len() ==> store[i].github_id != store[j].github_id
}

/// The identifiers of a store, in store order.
pub open spec fn s_ids(store: Seq<RepoRecordView>) -> Seq<Seq<char>> {
    store.map_values(|r: RepoRecordView| r.github_id)
}

/// The first index carrying `id`.
pub open spec fn s_index_of_id(store: Seq<RepoRecordView>, id: Seq<char>) -> int
    decreases store.len(),
{
    if store.len() == 0 {
        0
    } else if store[0].github_id == id {
        0
    } else {
        1 + s_index_of_id(store.drop_first(), id)
    }
}

/// An index before which `id` does not occur, and at which it stands unless
/// it is the length, is the first occurrence.
pub proof fn lemma_index_of_id_is(store: Seq<RepoRecordView>, id: Seq<char>, i: int)
    requires
        0 <= i <= store.len(),
        forall|j: int| 0 <= j < i ==> store[j].github_id != id,
        i < store.len() ==> store[i].github_id == id,
    ensures
        s_index_of_id(store, id) == i,
    decreases store.len(),
{
    if store.len() == 0 {
    } else if store[0].github_id == id {
        assert(i == 0);
    } else {
        assert(i >= 1) by {
            assert(store[0].github_id != id);
        }
        lemma_index_of_id_is(store.drop_first(), id, i - 1);
    }
}

/// The record a configured repository is written as.
pub open spec fn s_record_of(repo: RepoSummaryView, config: ResolvedConfigView, now: i64) -> RepoRecordView {
    RepoRecordView {
        github_id: repo.id,
        name: repo.name,
        name_with_owner: repo.name_with_owner,
        description: repo.description,
        url: repo.url,
        config: Some(config),
        last_updated: now,
    }
}

/// The store after one upsert: update in place when the identifier exists,
/// append otherwise.
pub open spec fn s_upsert(store: Seq<RepoRecordView>, rec: RepoRecordView) -> Seq<RepoRecordView> {
    if s_has_id(store, rec.github_id) {
        store.update(s_index_of_id(store, rec.github_id), rec)
    } else {
        store.push(rec)
    }
}

/// The repositories that resolved to a configuration, in order.
pub open spec fn s_with_config(
    resolutions: Seq<(RepoSummaryView, Option<ResolvedConfigView>)>,
) -> Seq<(RepoSummaryView, ResolvedConfigView)> {
    resolutions.filter(|p: (RepoSummaryView, Option<ResolvedConfigView>)| p.1 is Some).map_values(
        |p: (RepoSummaryView, Option<ResolvedConfigView>)| (p.0, p.1->Some_0),
    )
}

/// The identifiers of the configured repositories, in order.
pub open spec fn s_keep_ids(items: Seq<(RepoSummaryView, ResolvedConfigView)>) -> Seq<Seq<char>> {
    items.map_values(|p: (RepoSummaryView, ResolvedConfigView)| p.0.id)
}

/// The store after the delete phase: only records whose identifier is kept
/// survive, in order.
pub open spec fn s_delete_stale(store: Seq<RepoRecordView>, keep: Seq<Seq<char>>) -> Seq<
    RepoRecordView,
> {
    store.filter(|r: RepoRecordView| keep.contains(r.github_id))
}

/// The store after the upsert phase: each item is upserted in order, except
/// those whose upsert faults, which are skipped.
pub open spec fn s_apply(
    store: Seq<RepoRecordView>,
    items: Seq<(RepoSummaryView, ResolvedConfigView)>,
    faults: Seq<Seq<char>>,
    now: i64,
) -> Seq<RepoRecordView>
    decreases items.len(),
{
    if items.len() == 0 {
        store
    } else {
        let next = if faults.contains(items[0].0.id) {
            store
        } else {
            s_upsert(store, s_record_of(items[0].0, items[0].1, now))
        };
        s_apply(next, items.drop_first(), faults, now)
    }
}

/// The identifiers whose upserts fault, in item order.
pub open spec fn s_upsert_errors(
    items: Seq<(RepoSummaryView, ResolvedConfigView)>,
    faults: Seq<Seq<char>>,
) -> Seq<Seq<char>> {
    s_keep_ids(items).filter(|id: Seq<char>| faults.contains(id))
}

/// The store after a whole run: stale records deleted, configured
/// repositories upserted.
pub open spec fn s_run(
    store: Seq<RepoRecordView>,
    resolutions: Seq<(RepoSummaryView, Option<ResolvedConfigView>)>,
    faults: Seq<Seq<char>>,
    now: i64,
) -> Seq<RepoRecordView> {
    let items = s_with_config(resolutions);
    s_apply(s_delete_stale(store, s_keep_ids(items)), items, faults, now)
}

/// Settles one repository's resolution: a configuration when resolution
/// succeeded, no configuration on any error.  No resolution outcome is ever
/// fatal to the batch.
pub fn settle_resolution(r: Result<ResolvedConfig, AppError>) -> (o: Option<ResolvedConfig>)
    ensures
        match r {
            Ok(c) => o == Some(c),
            Err(_) => o is None,
        },
{
    match r {
        Ok(c) => Some(c),
        Err(_) => None,
    }
}

/// Splits the settled resolutions into the repositories that carry a
/// configuration, in order.
pub fn partition_resolved(resolutions: Vec<(RepoSummary, Option<ResolvedConfig>)>) -> (r: Vec<
    (RepoSummary, ResolvedConfig),
>)
    ensures
        r.deep_view() == s_with_config(resolutions.deep_view()),
{
    let ghost orig = resolutions.deep_view();
    let mut rest = resolutions;
    let mut out: Vec<(RepoSummary, ResolvedConfig)> = Vec::new();
    let ghost mut done: Seq<(RepoSummaryView, Option<ResolvedConfigView>)> = Seq::empty();
    proof {
        assert(done + rest.deep_view() =~= orig);
        reveal(Seq::filter);
        assert(out.deep_view() =~= s_with_config(done));
    }
    while rest.len() > 0
        invariant
            orig == done + rest.deep_view(),
            out.deep_view() == s_with_config(done),
        decreases rest.len(),
    {
        let ghost before = rest.deep_view();
        let ghost pv = before[0];
        let p = rest.remove(0);
        proof {
            assert(rest.deep_view() =~= before.drop_first());
            assert(p.deep_view() == pv);
        }
        match p.1 {
            Some(c) => {
                out.push((p.0, c));
                proof {
                    reveal(Seq::filter);
                    assert(pv.1 is Some);
                    assert(done.push(pv).drop_last() =~= done);
                    assert(s_with_config(done.push(pv)) =~= s_with_config(done).push(
                        (pv.0, pv.1->Some_0),
                    ));
                    assert(out.deep_view().last() == (pv.0, pv.1->Some_0));
                    assert(out.deep_view() =~= s_with_config(done.push(pv)));
                }
            },
            None => {
                proof {
                    reveal(Seq::filter);
                    assert(!(pv.1 is Some));
                    assert(done.push(pv).drop_last() =~= done);
                    assert(s_with_config(done.push(pv)) =~= s_with_config(done));
                    assert(out.deep_view() =~= s_with_config(done.push(pv)));
                }
            },
        }
        proof {
            done = done.push(pv);
            assert(orig =~= done + rest.deep_view());
        }
    }
    proof {
        assert(rest.deep_view() =~= Seq::<(RepoSummaryView, Option<ResolvedConfigView>)>::empty());
        assert(done =~= orig);
    }
    out
}

/// The identifiers of the configured repositories, in order.
pub fn keep_ids(items: &Vec<(RepoSummary, ResolvedConfig)>) -> (r: Vec<String>)
    ensures
        r.deep_view() == s_keep_ids(items.deep_view()),
{
    let n = items.len();
    let mut out: Vec<String> = Vec::new();
    let mut i: usize = 0;
    proof {
        assert(out.deep_view() =~= items.deep_view().take(0).map_values(
            |p: (RepoSummaryView, ResolvedConfigView)| p.0.id,
        ));
    }
    while i < n
        invariant
            i <= n,
            n == items@.len(),
            out.deep_view() == items.deep_view().take(i as int).map_values(
                |p: (RepoSummaryView, ResolvedConfigView)| p.0.id,
            ),
        decreases n - i,
    {
        let ghost prefix = out.deep_view();
        out.push(items[i].0.id.clone());
        proof {
            assert(items.deep_view()[i as int] == items@[i as int].deep_view());
            assert(items.deep_view()[i as int].0 == items@[i as int].0.deep_view());
            assert(out@.last() == items@[i as int].0.id);
            assert(out.deep_view().last() == out@.last().deep_view());
            assert(out.deep_view() =~= prefix.push(items.deep_view()[i as int].0.id));
            assert(items.deep_view().take(i + 1).map_values(
                |p: (RepoSummaryView, ResolvedConfigView)| p.0.id,
            ) =~= prefix.push(items.deep_view()[i as int].0.id));
        }
        i = i + 1;
    }
    proof {
        assert(items.deep_view().take(n as int) =~= items.deep_view());
    }
    out
}

/// Whether some member of `keep` is `id`.
fn contains_id(keep: &Vec<String>, id: &str) -> (r: bool)
    ensures
        r == keep.deep_view().contains(id@),
{
    let n = keep.len();
    let mut i: usize = 0;
    while i < n
        invariant
            i <= n,
            n == keep@.len(),
            forall|j: int| 0 <= j < i ==> keep.deep_view()[j] != id@,
        decreases n - i,
    {
        if crate::strutil::str_eq(keep[i].as_str(), id) {
            proof {
                assert(keep.deep_view()[i as int] == id@);
            }
            return true;
        }
        i = i + 1;
    }
    false
}

/// The delete phase: removes every record whose identifier is not kept.
pub fn delete_stale(store: Vec<RepoRecord>, keep: &Vec<String>) -> (r: Vec<RepoRecord>)
    ensures
        r.deep_view() == s_delete_stale(store.deep_view(), keep.deep_view()),
{
    let ghost orig = store.deep_view();
    let mut rest = store;
    let mut out: Vec<RepoRecord> = Vec::new();
    let ghost mut done: Seq<RepoRecordView> = Seq::empty();
    proof {
        assert(done + rest.deep_view() =~= orig);
        reveal(Seq::filter);
        assert(out.deep_view() =~= s_delete_stale(done, keep.deep_view()));
    }
    while rest.len() > 0
        invariant
            orig == done + rest.deep_view(),
            out.deep_view() == s_delete_stale(done, keep.deep_view()),
        decreases rest.len(),
    {
        let ghost before = rest.deep_view();
        let ghost rv = before[0];
        let rec = rest.remove(0);
        proof {
            assert(rest.deep_view() =~= before.drop_first());
            assert(rec.deep_view() == rv);
        }
        let kept = contains_id(keep, rec.github_id.as_str());
        if kept {
            out.push(rec);
            proof {
                reveal(Seq::filter);
                assert(done.push(rv).drop_last() =~= done);
                assert(out.deep_view() =~= s_delete_stale(done.push(rv), keep.deep_view()));
            }
        } else {
            proof {
                reveal(Seq::filter);
                assert(done.push(rv).drop_last() =~= done);
                assert(out.deep_view() =~= s_delete_stale(done.push(rv), keep.deep_view()));
            }
        }
        proof {
            done = done.push(rv);
            assert(orig =~= done + rest.deep_view());
        }
    }
    proof {
        assert(rest.deep_view() =~= Seq::<RepoRecordView>::empty());
        assert(done =~= orig);
    }
    out
}

/// One upsert: updates the record carrying the repository's identifier, or
/// appends a new record.  Never creates a duplicate identifier.
pub fn upsert(store: &mut Vec<RepoRecord>, repo: RepoSummary, config: ResolvedConfig, now: i64)
    ensures
        final(store).deep_view() == s_upsert(
            old(store).deep_view(),
            s_record_of(repo@, config@, now),
        ),
{
    let n = store.len();
    let mut i: usize = 0;
    while i < n
        invariant
            i <= n,
            n == store@.len(),
            store.deep_view() == old(store).deep_view(),
            forall|j: int| 0 <= j < i ==> store.deep_view()[j].github_id != repo@.id,
        decreases n - i,
    {
        if crate::strutil::str_eq(store[i].github_id.as_str(), repo.id.as_str()) {
            proof {
                assert(store.deep_view()[i as int].github_id == repo@.id);
                lemma_index_of_id_is(store.deep_view(), repo@.id, i as int);
            }
            let rec = RepoRecord {
                github_id: repo.id,
                name: repo.name,
                name_with_owner: repo.name_with_owner,
                description: repo.description,
                url: repo.url,
                config: Some(config),
                last_updated: now,
            };
            store[i] = rec;
            proof {
                assert(store.deep_view() =~= s_upsert(
                    old(store).deep_view(),
                    s_record_of(repo@, config@, now),
                ));
            }
            return ;
        }
        i = i + 1;
    }
    proof {
        assert(!s_has_id(old(store).deep_view(), repo@.id));
    }
    let rec = RepoRecord {
        github_id: repo.id,
        name: repo.name,
        name_with_owner: repo.name_with_owner,
        description: repo.description,
        url: repo.url,
        config: Some(config),
        last_updated: now,
    };
    store.push(rec);
    proof {
        assert(store.deep_view() =~= s_upsert(
            old(store).deep_view(),
            s_record_of(repo@, config@, now),
        ));
    }
}

/// The upsert phase: upserts each configured repository in order.  An item
/// whose upsert faults is recorded by identifier and skipped; the phase
/// always runs to the end.
pub fn apply_upserts(
    store: &mut Vec<RepoRecord>,
    items: Vec<(RepoSummary, ResolvedConfig)>,
    faults: &Vec<String>,
    now: i64,
) -> (errors: Vec<String>)
    ensures
        final(store).deep_view() == s_apply(
            old(store).deep_view(),
            items.deep_view(),
            faults.deep_view(),
            now,
        ),
        errors.deep_view() == s_upsert_errors(items.deep_view(), faults.deep_view()),
{
    let ghost all_items = items.deep_view();
    let mut rest = items;
    let mut errors: Vec<String> = Vec::new();
    let ghost mut done: Seq<(RepoSummaryView, ResolvedConfigView)> = Seq::empty();
    proof {
        assert(done + rest.deep_view() =~= all_items);
        reveal(Seq::filter);
        assert(errors.deep_view() =~= s_upsert_errors(done, faults.deep_view()));
        assert(s_apply(old(store).deep_view(), all_items, faults.deep_view(), now) == s_apply(
            store.deep_view(),
            rest.deep_view(),
            faults.deep_view(),
            now,
        ));
    }
    while rest.len() > 0
        invariant
            all_items == done + rest.deep_view(),
            errors.deep_view() == s_upsert_errors(done, faults.deep_view()),
            s_apply(old(store).deep_view(), all_items, faults.deep_view(), now) == s_apply(
                store.deep_view(),
                rest.deep_view(),
                faults.deep_view(),
                now,
            ),
        decreases rest.len(),
    {
        let ghost before = rest.deep_view();
        let ghost store_before = store.deep_view();
        let ghost pv = before[0];
        let p = rest.remove(0);
        proof {
            assert(rest.deep_view() =~= before.drop_first());
            assert(p.deep_view() == pv);
        }
        let faulted = contains_id(faults, p.0.id.as_str());
        if faulted {
            errors.push(p.0.id.clone());
            proof {
                reveal(Seq::filter);
                assert(s_keep_ids(done.push(pv)).drop_last() =~= s_keep_ids(done));
                assert(s_keep_ids(done.push(pv)).last() == pv.0.id);
                assert(errors.deep_view() =~= s_upsert_errors(done.push(pv), faults.deep_view()));
                assert(s_apply(store_before, before, faults.deep_view(), now) == s_apply(
                    store.deep_view(),
                    rest.deep_view(),
                    faults.deep_view(),
                    now,
                ));
            }
        } else {
            upsert(store, p.0, p.1, now);
            proof {
                reveal(Seq::filter);
                assert(s_keep_ids(done.push(pv)).drop_last() =~= s_keep_ids(done));
                assert(s_keep_ids(done.push(pv)).last() == pv.0.id);
                assert(errors.deep_view() =~= s_upsert_errors(done.push(pv), faults.deep_view()));
                assert(store.deep_view() == s_upsert(
                    store_before,
                    s_record_of(pv.0, pv.1, now),
                ));
                assert(s_apply(store_before, before, faults.deep_view(), now) == s_apply(
                    store.deep_view(),
                    rest.deep_view(),
                    faults.deep_view(),
                    now,
                ));
            }
        }
        proof {
            done = done.push(pv);
            assert(all_items =~= done + rest.deep_view());
        }
    }
    proof {
        assert(rest.deep_view() =~= Seq::<(RepoSummaryView, ResolvedConfigView)>::empty());
        assert(done =~= all_items);
    }
    errors
}

/// A store that carries `id` has its first occurrence inside bounds, at a
/// record carrying `id`, with no earlier occurrence.
pub proof fn lemma_index_of_id_bounds(store: Seq<RepoRecordView>, id: Seq<char>)
    requires
        s_has_id(store, id),
    ensures
        0 <= s_index_of_id(store, id) < store.len(),
        store[s_index_of_id(store, id)].github_id == id,
        forall|j: int| 0 <= j < s_index_of_id(store, id) ==> store[j].github_id != id,
    decreases store.len(),
{
    if store[0].github_id == id {
    } else {
        let w = choose|i: int| 0 <= i < store.len() && store[i].github_id == id;
        assert(store.drop_first()[w - 1].github_id == id);
        lemma_index_of_id_bounds(store.drop_first(), id);
        let k = s_index_of_id(store.drop_first(), id);
        assert(store[1 + k] == store.drop_first()[k]);
        assert forall|j: int| 0 <= j < 1 + k implies store[j].github_id != id by {
            if j > 0 {
                assert(store.drop_first()[j - 1] == store[j]);
            }
        }
    }
}

/// Membership in a store with one record appended.
pub proof fn lemma_has_id_push(store: Seq<RepoRecordView>, rec: RepoRecordView, id: Seq<char>)
    ensures
        s_has_id(store.push(rec), id) <==> (s_has_id(store, id) || rec.github_id == id),
{
    if s_has_id(store, id) {
        let i = choose|i: int| 0 <= i < store.len() && store[i].github_id == id;
        assert(store.push(rec)[i].github_id == id);
    }
    if rec.github_id == id {
        assert(store.push(rec)[store.len() as int].github_id == id);
    }
    if s_has_id(store.push(rec), id) {
        let i = choose|i: int| 0 <= i < store.push(rec).len() && store.push(rec)[i].github_id
            == id;
        if i < store.len() {
            assert(store[i].github_id == id);
        }
    }
}

/// An upsert makes exactly the upserted identifier present, besides what was
/// present before.
pub proof fn lemma_upsert_membership(store: Seq<RepoRecordView>, rec: RepoRecordView, id: Seq<char>)
    ensures
        s_has_id(s_upsert(store, rec), id) <==> (s_has_id(store, id) || rec.github_id == id),
{
    if s_has_id(store, rec.github_id) {
        lemma_index_of_id_bounds(store, rec.github_id);
        let k = s_index_of_id(store, rec.github_id);
        let upd = store.update(k, rec);
        if s_has_id(store, id) {
            let i = choose|i: int| 0 <= i < store.len() && store[i].github_id == id;
            if i == k {
                assert(upd[k].github_id == rec.github_id);
                assert(rec.github_id == id);
            } else {
                assert(upd[i].github_id == id);
            }
        }
        if rec.github_id == id {
            assert(upd[k].github_id == id);
        }
        if s_has_id(upd, id) {
            let i = choose|i: int| 0 <= i < upd.len() && upd[i].github_id == id;
            if i == k {
                assert(store[k].github_id == rec.github_id);
            } else {
                assert(store[i].github_id == id);
            }
        }
    } else {
        lemma_has_id_push(store, rec, id);
    }
}

/// An upsert never creates a duplicate identifier.
pub proof fn lemma_upsert_unique(store: Seq<RepoRecordView>, rec: RepoRecordView)
    requires
        s_unique_ids(store),
    ensures
        s_unique_ids(s_upsert(store, rec)),
{
    if s_has_id(store, rec.github_id) {
        lemma_index_of_id_bounds(store, rec.github_id);
        let k = s_index_of_id(store, rec.github_id);
        let upd = store.update(k, rec);
        assert forall|i: int, j: int| 0 <= i < j < upd.len() implies upd[i].github_id
            != upd[j].github_id by {
            assert(upd[i].github_id == store[i].github_id || (i == k && upd[i].github_id
                == store[k].github_id));
            assert(upd[j].github_id == store[j].github_id || (j == k && upd[j].github_id
                == store[k].github_id));
        }
    } else {
        let p = store.push(rec);
        assert forall|i: int, j: int| 0 <= i < j < p.len() implies p[i].github_id
            != p[j].github_id by {
            if j == store.len() {
                assert(p[i] == store[i]);
                if p[i].github_id == rec.github_id {
                    assert(s_has_id(store, rec.github_id));
                }
            }
        }
    }
}

/// Membership after the delete phase: a record survives exactly when it was
/// present and its identifier is kept.
pub proof fn lemma_delete_membership(store: Seq<RepoRecordView>, keep: Seq<Seq<char>>, id: Seq<char>)
    ensures
        s_has_id(s_delete_stale(store, keep), id) <==> (s_has_id(store, id) && keep.contains(id)),
    decreases store.len(),
{
    reveal(Seq::filter);
    let pred = |r: RepoRecordView| keep.contains(r.github_id);
    if store.len() == 0 {
        assert(!s_has_id(store, id));
        assert(store.filter(pred).len() == 0);
    } else {
        let prefix = store.drop_last();
        let last = store.last();
        lemma_delete_membership(prefix, keep, id);
        assert(store.filter(pred) == if pred(last) {
            prefix.filter(pred).push(last)
        } else {
            prefix.filter(pred)
        });
        if pred(last) {
            lemma_has_id_push(prefix.filter(pred), last, id);
        }
        assert(s_has_id(store, id) <==> (s_has_id(prefix, id) || last.github_id == id)) by {
            if s_has_id(store, id) {
                let i = choose|i: int| 0 <= i < store.len() && store[i].github_id == id;
                if i < store.len() - 1 {
                    assert(prefix[i].github_id == id);
                }
            }
            if s_has_id(prefix, id) {
                let i = choose|i: int| 0 <= i < prefix.len() && prefix[i].github_id == id;
                assert(store[i].github_id == id);
            }
            if last.github_id == id {
                assert(store[store.len() - 1].github_id == id);
            }
        }
    }
}

/// The delete phase never creates a duplicate identifier.
pub proof fn lemma_delete_unique(store: Seq<RepoRecordView>, keep: Seq<Seq<char>>)
    requires
        s_unique_ids(store),
    ensures
        s_unique_ids(s_delete_stale(store, keep)),
    decreases store.len(),
{
    reveal(Seq::filter);
    let pred = |r: RepoRecordView| keep.contains(r.github_id);
    if store.len() == 0 {
    } else {
        let prefix = store.drop_last();
        let last = store.last();
        assert(s_unique_ids(prefix)) by {
            assert(forall|i: int| 0 <= i < prefix.len() ==> prefix[i] == store[i]);
        }
        lemma_delete_unique(prefix, keep);
        if pred(last) {
            let f = prefix.filter(pred);
            assert(!s_has_id(f, last.github_id)) by {
                lemma_delete_membership(prefix, keep, last.github_id);
                if s_has_id(prefix, last.github_id) {
                    let i = choose|i: int| 0 <= i < prefix.len() && prefix[i].github_id
                        == last.github_id;
                    assert(store[i].github_id == store[store.len() - 1].github_id);
                    assert(false);
                }
            }
            assert(s_unique_ids(f.push(last))) by {
                assert forall|i: int, j: int| 0 <= i < j < f.push(last).len() implies f.push(
                    last,
                )[i].github_id != f.push(last)[j].github_id by {
                    if j == f.len() {
                        assert(f[i].github_id != last.github_id) by {
                            if f[i].github_id == last.github_id {
                                assert(s_has_id(f, last.github_id));
                            }
                        }
                    }
                }
            }
        }
    }
}

/// Membership after the upsert phase: an identifier is present exactly when
/// it was present before, or some item carries it and it is not faulted.
pub proof fn lemma_apply_membership(
    store: Seq<RepoRecordView>,
    items: Seq<(RepoSummaryView, ResolvedConfigView)>,
    faults: Seq<Seq<char>>,
    now: i64,
    id: Seq<char>,
)
    ensures
        s_has_id(s_apply(store, items, faults, now), id) <==> (s_has_id(store, id) || (s_keep_ids(
            items,
        ).contains(id) && !faults.contains(id))),
    decreases items.len(),
{
    if items.len() == 0 {
        assert(!s_keep_ids(items).contains(id));
    } else {
        let first = items[0];
        let rest = items.drop_first();
        let rec = s_record_of(first.0, first.1, now);
        let next = if faults.contains(first.0.id) {
            store
        } else {
            s_upsert(store, rec)
        };
        lemma_apply_membership(next, rest, faults, now, id);
        if !faults.contains(first.0.id) {
            lemma_upsert_membership(store, rec, id);
        }
        assert(s_keep_ids(items).contains(id) <==> (first.0.id == id || s_keep_ids(rest).contains(
            id,
        ))) by {
            assert(s_keep_ids(items)[0] == first.0.id);
            assert(s_keep_ids(items).len() == items.len());
            if s_keep_ids(rest).contains(id) {
                let i = choose|i: int| 0 <= i < rest.len() && s_keep_ids(rest)[i] == id;
                assert(s_keep_ids(items)[i + 1] == rest[i].0.id);
                assert(s_keep_ids(items)[i + 1] == id);
            }
            if s_keep_ids(items).contains(id) {
                let i = choose|i: int| 0 <= i < items.len() && s_keep_ids(items)[i] == id;
                if i > 0 {
                    assert(s_keep_ids(rest)[i - 1] == rest[i - 1].0.id);
                    assert(rest[i - 1] == items[i]);
                    assert(s_keep_ids(rest)[i - 1] == id);
                }
            }
        }
    }
}

/// The upsert phase never creates a duplicate identifier.
pub proof fn lemma_apply_unique(
    store: Seq<RepoRecordView>,
    items: Seq<(RepoSummaryView, ResolvedConfigView)>,
    faults: Seq<Seq<char>>,
    now: i64,
)
    requires
        s_unique_ids(store),
    ensures
        s_unique_ids(s_apply(store, items, faults, now)),
    decreases items.len(),
{
    if items.len() == 0 {
    } else {
        let first = items[0];
        let rec = s_record_of(first.0, first.1, now);
        if faults.contains(first.0.id) {
            lemma_apply_unique(store, items.drop_first(), faults, now);
        } else {
            lemma_upsert_unique(store, rec);
            lemma_apply_unique(s_upsert(store, rec), items.drop_first(), faults, now);
        }
    }
}

/// Membership after a whole run: an identifier is present exactly when a
/// configured item carries it and it is not faulted, or it survived the
/// delete phase, which itself keeps only configured identifiers.
pub proof fn lemma_run_membership(
    store: Seq<RepoRecordView>,
    resolutions: Seq<(RepoSummaryView, Option<ResolvedConfigView>)>,
    faults: Seq<Seq<char>>,
    now: i64,
    id: Seq<char>,
)
    ensures
        s_has_id(s_run(store, resolutions, faults, now), id) <==> (s_keep_ids(
            s_with_config(resolutions),
        ).contains(id) && (s_has_id(store, id) || !faults.contains(id))),
{
    let items = s_with_config(resolutions);
    let keep = s_keep_ids(items);
    lemma_delete_membership(store, keep, id);
    lemma_apply_membership(s_delete_stale(store, keep), items, faults, now, id);
}

/// Reconciliation idempotence: with no upstream changes and no faults, the
/// identifiers present after a second run are exactly those present after
/// the first, and both stores carry each identifier once.
pub proof fn lemma_sync_idempotent(
    store: Seq<RepoRecordView>,
    resolutions: Seq<(RepoSummaryView, Option<ResolvedConfigView>)>,
    now1: i64,
    now2: i64,
)
    requires
        s_unique_ids(store),
    ensures
        s_unique_ids(s_run(store, resolutions, Seq::empty(), now1)),
        s_unique_ids(
            s_run(s_run(store, resolutions, Seq::empty(), now1), resolutions, Seq::empty(), now2),
        ),
        forall|id: Seq<char>|
            s_has_id(
                s_run(
                    s_run(store, resolutions, Seq::empty(), now1),
                    resolutions,
                    Seq::empty(),
                    now2,
                ),
                id,
            ) <==> s_has_id(s_run(store, resolutions, Seq::empty(), now1), id),
{
    let items = s_with_config(resolutions);
    let once = s_run(store, resolutions, Seq::empty(), now1);
    lemma_delete_unique(store, s_keep_ids(items));
    lemma_apply_unique(s_delete_stale(store, s_keep_ids(items)), items, Seq::empty(), now1);
    lemma_delete_unique(once, s_keep_ids(items));
    lemma_apply_unique(s_delete_stale(once, s_keep_ids(items)), items, Seq::empty(), now2);
    assert forall|id: Seq<char>|
        s_has_id(s_run(once, resolutions, Seq::empty(), now2), id) <==> s_has_id(once, id) by {
        lemma_run_membership(store, resolutions, Seq::empty(), now1, id);
        lemma_run_membership(once, resolutions, Seq::empty(), now2, id);
        assert(!Seq::<Seq<char>>::empty().contains(id));
    }
}

/// The record at the first occurrence of `id`.
pub open spec fn s_record_for(store: Seq<RepoRecordView>, id: Seq<char>) -> RepoRecordView {
    store[s_index_of_id(store, id)]
}

/// The last item carrying `id`, for an `id` some item carries.
pub open spec fn s_last_item(
    items: Seq<(RepoSummaryView, ResolvedConfigView)>,
    id: Seq<char>,
) -> (RepoSummaryView, ResolvedConfigView)
    decreases items.len(),
{
    if items.len() == 0 {
        (
            RepoSummaryView {
                id: Seq::empty(),
                name: Seq::empty(),
                name_with_owner: Seq::empty(),
                description: None,
                url: Seq::empty(),
                is_fork: false,
                is_archived: false,
            },
            ResolvedConfigView {
                content: MosaicConfigView {
                    base_config: crate::config::BaseConfigView {
                        project: crate::config::ProjectConfigView {
                            name: None,
                            description: None,
                            stars: false,
                            priority: 0,
                            version: false,
                            ignore: false,
                            handle: None,
                            deprecated: None,
                            alternative: None,
                        },
                        readme: None,
                        website: None,
                        package: None,
                    },
                    workspace: None,
                },
                external: false,
            },
        )
    } else if s_keep_ids(items.drop_first()).contains(id) {
        s_last_item(items.drop_first(), id)
    } else {
        items[0]
    }
}

/// Two records that agree on everything but when they were written.
pub open spec fn s_same_content(a: RepoRecordView, b: RepoRecordView) -> bool {
    &&& a.github_id == b.github_id
    &&& a.name == b.name
    &&& a.name_with_owner == b.name_with_owner
    &&& a.description == b.description
    &&& a.url == b.url
    &&& a.config == b.config
}

/// An identifier carried by a non-empty item list is carried by its first
/// item or by the rest.
pub proof fn lemma_keep_ids_decompose(items: Seq<(RepoSummaryView, ResolvedConfigView)>, id: Seq<char>)
    requires
        items.len() > 0,
    ensures
        s_keep_ids(items).contains(id) <==> (items[0].0.id == id || s_keep_ids(
            items.drop_first(),
        ).contains(id)),
{
    let rest = items.drop_first();
    assert(s_keep_ids(items)[0] == items[0].0.id);
    if s_keep_ids(rest).contains(id) {
        let i = choose|i: int| 0 <= i < rest.len() && s_keep_ids(rest)[i] == id;
        assert(s_keep_ids(items)[i + 1] == items[i + 1].0.id);
        assert(rest[i] == items[i + 1]);
        assert(s_keep_ids(items)[i + 1] == id);
    }
    if s_keep_ids(items).contains(id) {
        let i = choose|i: int| 0 <= i < items.len() && s_keep_ids(items)[i] == id;
        if i > 0 {
            assert(rest[i - 1] == items[i]);
            assert(s_keep_ids(rest)[i - 1] == rest[i - 1].0.id);
            assert(s_keep_ids(rest)[i - 1] == id);
        }
    }
}

/// After an upsert, the upserted identifier's record is the upserted record.
pub proof fn lemma_upsert_record(store: Seq<RepoRecordView>, rec: RepoRecordView)
    ensures
        s_record_for(s_upsert(store, rec), rec.github_id) == rec,
{
    let id = rec.github_id;
    if s_has_id(store, id) {
        lemma_index_of_id_bounds(store, id);
        let k = s_index_of_id(store, id);
        let upd = store.update(k, rec);
        assert forall|j: int| 0 <= j < k implies upd[j].github_id != id by {
            assert(upd[j] == store[j]);
        }
        lemma_index_of_id_is(upd, id, k);
    } else {
        let p = store.push(rec);
        assert forall|j: int| 0 <= j < store.len() implies p[j].github_id != id by {
            assert(p[j] == store[j]);
            if store[j].github_id == id {
                assert(s_has_id(store, id));
            }
        }
        lemma_index_of_id_is(p, id, store.len() as int);
    }
}

/// An upsert leaves every other identifier's record untouched.
pub proof fn lemma_upsert_frame(store: Seq<RepoRecordView>, rec: RepoRecordView, id: Seq<char>)
    requires
        id != rec.github_id,
        s_has_id(store, id),
    ensures
        s_has_id(s_upsert(store, rec), id),
        s_record_for(s_upsert(store, rec), id) == s_record_for(store, id),
{
    lemma_upsert_membership(store, rec, id);
    lemma_index_of_id_bounds(store, id);
    let k2 = s_index_of_id(store, id);
    if s_has_id(store, rec.github_id) {
        lemma_index_of_id_bounds(store, rec.github_id);
        let k = s_index_of_id(store, rec.github_id);
        let upd = store.update(k, rec);
        assert(k != k2);
        assert forall|j: int| 0 <= j < k2 implies upd[j].github_id != id by {
            if j == k {
                assert(upd[j].github_id == rec.github_id);
            } else {
                assert(upd[j] == store[j]);
            }
        }
        assert(upd[k2] == store[k2]);
        lemma_index_of_id_is(upd, id, k2);
    } else {
        let p = store.push(rec);
        assert forall|j: int| 0 <= j < k2 implies p[j].github_id != id by {
            assert(p[j] == store[j]);
        }
        assert(p[k2] == store[k2]);
        lemma_index_of_id_is(p, id, k2);
    }
}

/// The upsert phase leaves an identifier no item carries untouched.
pub proof fn lemma_apply_frame(
    store: Seq<RepoRecordView>,
    items: Seq<(RepoSummaryView, ResolvedConfigView)>,
    faults: Seq<Seq<char>>,
    now: i64,
    id: Seq<char>,
)
    requires
        !s_keep_ids(items).contains(id),
        s_has_id(store, id),
    ensures
        s_has_id(s_apply(store, items, faults, now), id),
        s_record_for(s_apply(store, items, faults, now), id) == s_record_for(store, id),
    decreases items.len(),
{
    if items.len() == 0 {
    } else {
        let first = items[0];
        let rest = items.drop_first();
        let rec = s_record_of(first.0, first.1, now);
        lemma_keep_ids_decompose(items, id);
        if faults.contains(first.0.id) {
            lemma_apply_frame(store, rest, faults, now, id);
        } else {
            lemma_upsert_frame(store, rec, id);
            lemma_apply_frame(s_upsert(store, rec), rest, faults, now, id);
        }
    }
}

/// After an unfaulted upsert phase, the record of every carried identifier
/// is the record of the last item carrying it.
pub proof fn lemma_apply_content(
    store: Seq<RepoRecordView>,
    items: Seq<(RepoSummaryView, ResolvedConfigView)>,
    now: i64,
    id: Seq<char>,
)
    requires
        s_keep_ids(items).contains(id),
    ensures
        s_has_id(s_apply(store, items, Seq::empty(), now), id),
        s_record_for(s_apply(store, items, Seq::empty(), now), id) == s_record_of(
            s_last_item(items, id).0,
            s_last_item(items, id).1,
            now,
        ),
    decreases items.len(),
{
    let first = items[0];
    let rest = items.drop_first();
    let rec = s_record_of(first.0, first.1, now);
    assert(!Seq::<Seq<char>>::empty().contains(first.0.id));
    let next = s_upsert(store, rec);
    lemma_keep_ids_decompose(items, id);
    if s_keep_ids(rest).contains(id) {
        lemma_apply_content(next, rest, now, id);
    } else {
        assert(first.0.id == id);
        lemma_upsert_record(store, rec);
        lemma_upsert_membership(store, rec, id);
        lemma_apply_frame(next, rest, Seq::empty(), now, id);
        assert(s_last_item(items, id) == first);
    }
}

/// Reconciliation idempotence, record for record: with no upstream changes
/// and no faults, the record each identifier carries after a second run has
/// the same content as after the first; only the write time may move.
pub proof fn lemma_sync_idempotent_content(
    store: Seq<RepoRecordView>,
    resolutions: Seq<(RepoSummaryView, Option<ResolvedConfigView>)>,
    now1: i64,
    now2: i64,
    id: Seq<char>,
)
    requires
        s_unique_ids(store),
        s_has_id(s_run(store, resolutions, Seq::empty(), now1), id),
    ensures
        s_has_id(
            s_run(s_run(store, resolutions, Seq::empty(), now1), resolutions, Seq::empty(), now2),
            id,
        ),
        s_same_content(
            s_record_for(
                s_run(
                    s_run(store, resolutions, Seq::empty(), now1),
                    resolutions,
                    Seq::empty(),
                    now2,
                ),
                id,
            ),
            s_record_for(s_run(store, resolutions, Seq::empty(), now1), id),
        ),
{
    let items = s_with_config(resolutions);
    let once = s_run(store, resolutions, Seq::empty(), now1);
    lemma_run_membership(store, resolutions, Seq::empty(), now1, id);
    assert(s_keep_ids(items).contains(id));
    lemma_apply_content(s_delete_stale(store, s_keep_ids(items)), items, now1, id);
    lemma_apply_content(s_delete_stale(once, s_keep_ids(items)), items, now2, id);
    lemma_run_membership(once, resolutions, Seq::empty(), now2, id);
}

/// The delete phase keeps a store whole when every identifier is kept.
pub proof fn lemma_delete_keeps_all(store: Seq<RepoRecordView>, keep: Seq<Seq<char>>)
    requires
        forall|j: int| 0 <= j < store.len() ==> keep.contains(store[j].github_id),
    ensures
        s_delete_stale(store, keep) == store,
    decreases store.len(),
{
    reveal(Seq::filter);
    let pred = |r: RepoRecordView| keep.contains(r.github_id);
    if store.len() == 0 {
        assert(store.filter(pred) =~= store);
    } else {
        let prefix = store.drop_last();
        assert(forall|j: int| 0 <= j < prefix.len() ==> prefix[j] == store[j]);
        lemma_delete_keeps_all(prefix, keep);
        assert(pred(store.last()));
        assert(store.filter(pred) =~= store);
    }
}

/// An upsert of an identifier already present leaves the identifier
/// sequence unchanged.
pub proof fn lemma_upsert_ids_when_present(store: Seq<RepoRecordView>, rec: RepoRecordView)
    requires
        s_has_id(store, rec.github_id),
    ensures
        s_ids(s_upsert(store, rec)) == s_ids(store),
{
    lemma_index_of_id_bounds(store, rec.github_id);
    let k = s_index_of_id(store, rec.github_id);
    let upd = store.update(k, rec);
    assert(s_ids(upd) =~= s_ids(store)) by {
        assert(forall|j: int|
            0 <= j < upd.len() && j != k ==> upd[j] == store[j]);
        assert(upd[k].github_id == store[k].github_id);
    }
}

/// An unfaulted upsert phase over a store already carrying every item's
/// identifier leaves the identifier sequence unchanged.
pub proof fn lemma_apply_ids_when_all_present(
    store: Seq<RepoRecordView>,
    items: Seq<(RepoSummaryView, ResolvedConfigView)>,
    now: i64,
)
    requires
        forall|i: int| 0 <= i < items.len() ==> s_has_id(store, #[trigger] items[i].0.id),
    ensures
        s_ids(s_apply(store, items, Seq::empty(), now)) == s_ids(store),
    decreases items.len(),
{
    if items.len() == 0 {
    } else {
        let first = items[0];
        let rest = items.drop_first();
        let rec = s_record_of(first.0, first.1, now);
        assert(!Seq::<Seq<char>>::empty().contains(first.0.id));
        assert(s_has_id(store, rec.github_id));
        lemma_upsert_ids_when_present(store, rec);
        let next = s_upsert(store, rec);
        assert forall|i: int| 0 <= i < rest.len() implies s_has_id(
            next,
            #[trigger] rest[i].0.id,
        ) by {
            assert(rest[i] == items[i + 1]);
            lemma_upsert_membership(store, rec, rest[i].0.id);
        }
        lemma_apply_ids_when_all_present(next, rest, now);
    }
}

/// Reconciliation idempotence, store for store: with no upstream changes and
/// no faults, the second run leaves the same records in the same order as
/// the first; only their write times may move.
pub proof fn lemma_sync_idempotent_store(
    store: Seq<RepoRecordView>,
    resolutions: Seq<(RepoSummaryView, Option<ResolvedConfigView>)>,
    now1: i64,
    now2: i64,
)
    requires
        s_unique_ids(store),
    ensures
        s_ids(
            s_run(s_run(store, resolutions, Seq::empty(), now1), resolutions, Seq::empty(), now2),
        ) == s_ids(s_run(store, resolutions, Seq::empty(), now1)),
        s_run(
            s_run(store, resolutions, Seq::empty(), now1),
            resolutions,
            Seq::empty(),
            now2,
        ).len() == s_run(store, resolutions, Seq::empty(), now1).len(),
        forall|j: int|
            0 <= j < s_run(store, resolutions, Seq::empty(), now1).len() ==> s_same_content(
                s_run(
                    s_run(store, resolutions, Seq::empty(), now1),
                    resolutions,
                    Seq::empty(),
                    now2,
                )[j],
                s_run(store, resolutions, Seq::empty(), now1)[j],
            ),
{
    let items = s_with_config(resolutions);
    let keep = s_keep_ids(items);
    let once = s_run(store, resolutions, Seq::empty(), now1);
    let twice = s_run(once, resolutions, Seq::empty(), now2);
    lemma_delete_unique(store, keep);
    lemma_apply_unique(s_delete_stale(store, keep), items, Seq::empty(), now1);

    // The delete phase of the second run removes nothing: every identifier
    // the first run left behind is a kept identifier.
    assert forall|j: int| 0 <= j < once.len() implies keep.contains(once[j].github_id) by {
        assert(s_has_id(once, once[j].github_id));
        lemma_run_membership(store, resolutions, Seq::empty(), now1, once[j].github_id);
    }
    lemma_delete_keeps_all(once, keep);

    // The upsert phase of the second run only updates in place: every item's
    // identifier is already present.
    assert forall|i: int| 0 <= i < items.len() implies s_has_id(
        once,
        #[trigger] items[i].0.id,
    ) by {
        assert(keep[i] == items[i].0.id);
        assert(keep.contains(items[i].0.id));
        lemma_run_membership(store, resolutions, Seq::empty(), now1, items[i].0.id);
        assert(!Seq::<Seq<char>>::empty().contains(items[i].0.id));
    }
    lemma_apply_ids_when_all_present(once, items, now2);
    assert(s_ids(twice) == s_ids(once));
    assert(twice.len() == once.len()) by {
        assert(s_ids(twice).len() == twice.len());
        assert(s_ids(once).len() == once.len());
    }

    // Record for record: at each position both stores carry the record of
    // the last item with that position's identifier, written at their own
    // times.
    assert forall|j: int| 0 <= j < once.len() implies s_same_content(twice[j], once[j]) by {
        let id = once[j].github_id;
        assert(s_has_id(once, id));
        lemma_run_membership(store, resolutions, Seq::empty(), now1, id);
        assert(s_keep_ids(items).contains(id));
        lemma_apply_content(s_delete_stale(store, keep), items, now1, id);
        lemma_apply_content(s_delete_stale(once, keep), items, now2, id);
        assert(s_unique_ids(once));
        assert forall|l: int| 0 <= l < j implies once[l].github_id != id by {}
        lemma_index_of_id_is(once, id, j);
        assert(s_record_for(once, id) == once[j]);
        assert(twice[j].github_id == id) by {
            assert(s_ids(twice)[j] == twice[j].github_id);
            assert(s_ids(once)[j] == once[j].github_id);
        }
        lemma_delete_unique(once, keep);
        lemma_apply_unique(s_delete_stale(once, keep), items, Seq::empty(), now2);
        assert(s_unique_ids(twice));
        assert forall|l: int| 0 <= l < j implies twice[l].github_id != id by {}
        lemma_index_of_id_is(twice, id, j);
        assert(s_record_for(twice, id) == twice[j]);
    }
}

/// Partial failure isolation: every configured repository whose upsert is
/// not faulted is present after the run, whatever faults struck the others,
/// and the faulted identifiers are exactly the recorded errors.
pub proof fn lemma_partial_failure_isolation(
    store: Seq<RepoRecordView>,
    resolutions: Seq<(RepoSummaryView, Option<ResolvedConfigView>)>,
    faults: Seq<Seq<char>>,
    now: i64,
)
    requires
        s_unique_ids(store),
    ensures
        forall|id: Seq<char>|
            (s_keep_ids(s_with_config(resolutions)).contains(id) && !faults.contains(id))
                ==> s_has_id(s_run(store, resolutions, faults, now), id),
        s_unique_ids(s_run(store, resolutions, faults, now)),
{
    let items = s_with_config(resolutions);
    lemma_delete_unique(store, s_keep_ids(items));
    lemma_apply_unique(s_delete_stale(store, s_keep_ids(items)), items, faults, now);
    assert forall|id: Seq<char>|
        (s_keep_ids(items).contains(id) && !faults.contains(id)) implies s_has_id(
        s_run(store, resolutions, faults, now),
        id,
    ) by {
        lemma_run_membership(store, resolutions, faults, now, id);
    }
}

/// What a synchronization run leaves behind: the reconciled store and the
/// identifiers whose upserts failed.
#[derive(Debug)]
pub struct SyncOutcome {
    /// The store after the run.
    pub store: Vec<RepoRecord>,
    /// The identifiers whose upserts failed, in item order.
    pub errors: Vec<String>,
}

/// One whole synchronization run against an in-memory store: partitions the
/// settled resolutions, deletes stale records, upserts the configured
/// repositories.  `faults` names the repositories whose upserts the store
/// refuses; their failures are collected, not fatal.
pub fn run_sync_model(
    store: Vec<RepoRecord>,
    resolutions: Vec<(RepoSummary, Option<ResolvedConfig>)>,
    faults: &Vec<String>,
    now: i64,
) -> (r: SyncOutcome)
    ensures
        r.store.deep_view() == s_run(
            store.deep_view(),
            resolutions.deep_view(),
            faults.deep_view(),
            now,
        ),
        r.errors.deep_view() == s_upsert_errors(
            s_with_config(resolutions.deep_view()),
            faults.deep_view(),
        ),
{
    let items = partition_resolved(resolutions);
    let keep = keep_ids(&items);
    let mut surviving = delete_stale(store, &keep);
    let errors = apply_upserts(&mut surviving, items, faults, now);
    SyncOutcome { store: surviving, errors }
}

} // verus!
