//! What holds of dependency resolution from one run to the next.

use vstd::prelude::*;
use crate::config::DependencyView;
use crate::resolve::{
    distinct_repositories, fetches_of, is_remote, plan_of, revision_of, run_of, step_of, PlanView,
};
use crate::state::{entry_for, entry_fresh, fresh, refreshed, without_uri, EntryView};

verus! {

/// An entry of another repository than `uri` outlives the forgetting of `uri`.
proof fn lemma_without_uri_keeps(entries: Seq<EntryView>, uri: Seq<char>, e: EntryView)
    requires
        entries.contains(e),
        e.uri != uri,
    ensures
        without_uri(entries, uri).contains(e),
{
    let i = choose|i: int| 0 <= i < entries.len() && entries[i] == e;
    entries.lemma_filter_contains(|x: EntryView| x.uri != uri, i);
}

/// What is left after forgetting `uri` was there before, and is of another
/// repository.
proof fn lemma_without_uri_only(entries: Seq<EntryView>, uri: Seq<char>, e: EntryView)
    requires
        without_uri(entries, uri).contains(e),
    ensures
        entries.contains(e),
        e.uri != uri,
    decreases entries.len(),
{
    reveal(Seq::filter);
    if entries.len() > 0 {
        let rest = without_uri(entries.drop_last(), uri);
        if entries.last().uri != uri && e == entries.last() {
        } else {
            if entries.last().uri != uri {
                let i = choose|i: int| 0 <= i < rest.push(entries.last()).len() && rest.push(
                    entries.last(),
                )[i] == e;
                assert(rest[i] == e);
            }
            lemma_without_uri_only(entries.drop_last(), uri, e);
            let k = choose|k: int| 0 <= k < entries.drop_last().len() && entries.drop_last()[k] == e;
            assert(entries[k] == e);
        }
    }
}

/// Forgetting a repository twice is forgetting it once.
proof fn lemma_without_uri_twice(entries: Seq<EntryView>, uri: Seq<char>)
    ensures
        without_uri(without_uri(entries, uri), uri) == without_uri(entries, uri),
    decreases entries.len(),
{
    reveal(Seq::filter);
    if entries.len() > 0 {
        let front = entries.drop_last();
        lemma_without_uri_twice(front, uri);
        if entries.last().uri != uri {
            let kept = without_uri(front, uri);
            assert(kept.push(entries.last()).drop_last() =~= kept);
        }
    }
}

/// Letting go of a repository when its fetch is planned, and remembering the
/// fetch when it has succeeded, leaves the record as one fetch in one step
/// would.
pub proof fn lemma_forget_then_refresh(
    entries: Seq<EntryView>,
    dep: DependencyView,
    head: Seq<char>,
)
    ensures
        refreshed(without_uri(entries, dep.uri), dep, head) == refreshed(entries, dep, head),
{
    lemma_without_uri_twice(entries, dep.uri);
}

/// The entry written for a fetch shows that very fetch fresh.
proof fn lemma_refreshed_is_fresh(entries: Seq<EntryView>, dep: DependencyView, head: Seq<char>)
    ensures
        fresh(refreshed(entries, dep, head), dep, head),
{
    let after = refreshed(entries, dep, head);
    assert(entry_fresh(after[after.len() - 1], dep, head));
}

/// Resolving one dependency leaves the record fresh for any dependency of
/// another repository for which it was fresh.
proof fn lemma_step_keeps_fresh(
    prior: Seq<EntryView>,
    next: Seq<EntryView>,
    dep: DependencyView,
    head: Seq<char>,
    other: DependencyView,
    other_head: Seq<char>,
)
    requires
        fresh(next, other, other_head),
        is_remote(dep) ==> dep.uri != other.uri,
    ensures
        fresh(step_of(prior, next, dep, head), other, other_head),
{
    if is_remote(dep) && !fresh(prior, dep, head) {
        let i = choose|i: int| 0 <= i < next.len() && entry_fresh(next[i], other, other_head);
        let e = next[i];
        lemma_without_uri_keeps(next, dep.uri, e);
        let kept = without_uri(next, dep.uri);
        let k = choose|k: int| 0 <= k < kept.len() && kept[k] == e;
        let after = refreshed(next, dep, head);
        assert(after[k] == e);
    }
}

/// A run keeps every entry whose repository none of its remote dependencies
/// names.
proof fn lemma_run_keeps(
    prior: Seq<EntryView>,
    next: Seq<EntryView>,
    deps: Seq<DependencyView>,
    heads: Seq<Seq<char>>,
    e: EntryView,
)
    requires
        deps.len() == heads.len(),
        next.contains(e),
        forall|j: int| 0 <= j < deps.len() && is_remote(deps[j]) ==> deps[j].uri != e.uri,
    ensures
        run_of(prior, next, deps, heads).contains(e),
    decreases deps.len(),
{
    if deps.len() > 0 {
        let before = run_of(prior, next, deps.drop_last(), heads.drop_last());
        lemma_run_keeps(prior, next, deps.drop_last(), heads.drop_last(), e);
        let dep = deps.last();
        if is_remote(dep) && !fresh(prior, dep, heads.last()) {
            lemma_without_uri_keeps(before, dep.uri, e);
            let kept = without_uri(before, dep.uri);
            let k = choose|k: int| 0 <= k < kept.len() && kept[k] == e;
            assert(refreshed(before, dep, heads.last())[k] == e);
        }
    }
}

/// After a run over dependencies of distinct repositories, the record shows
/// each remote one fresh.
proof fn lemma_run_makes_fresh(
    prior: Seq<EntryView>,
    deps: Seq<DependencyView>,
    heads: Seq<Seq<char>>,
    i: int,
)
    requires
        deps.len() == heads.len(),
        distinct_repositories(deps),
        0 <= i < deps.len(),
        is_remote(deps[i]),
    ensures
        fresh(run_of(prior, prior, deps, heads), deps[i], heads[i]),
    decreases deps.len(),
{
    let front = deps.drop_last();
    let before = run_of(prior, prior, front, heads.drop_last());
    let dep = deps.last();
    let head = heads.last();
    if i < deps.len() - 1 {
        assert(distinct_repositories(front)) by {
            assert forall|a: int, b: int|
                0 <= a < b < front.len() && is_remote(front[a]) && is_remote(
                    front[b],
                ) implies front[a].uri != front[b].uri by {
                assert(front[a] == deps[a] && front[b] == deps[b]);
            }
        }
        lemma_run_makes_fresh(prior, front, heads.drop_last(), i);
        assert(front[i] == deps[i] && heads.drop_last()[i] == heads[i]);
        lemma_step_keeps_fresh(prior, before, dep, head, deps[i], heads[i]);
    } else if fresh(prior, dep, head) {
        let k = choose|k: int| 0 <= k < prior.len() && entry_fresh(prior[k], dep, head);
        let e = prior[k];
        assert forall|j: int| 0 <= j < front.len() && is_remote(front[j]) implies front[j].uri
            != e.uri by {
            assert(front[j] == deps[j]);
        }
        lemma_run_keeps(prior, prior, front, heads.drop_last(), e);
        let m = choose|m: int| 0 <= m < before.len() && before[m] == e;
        assert(entry_fresh(before[m], dep, head));
    } else {
        lemma_refreshed_is_fresh(before, dep, head);
    }
}

/// A run changes nothing and fetches nothing where the record of the last
/// run shows every remote dependency fresh.
proof fn lemma_fresh_run_is_still(
    prior: Seq<EntryView>,
    next: Seq<EntryView>,
    deps: Seq<DependencyView>,
    heads: Seq<Seq<char>>,
)
    requires
        deps.len() == heads.len(),
        forall|i: int|
            0 <= i < deps.len() && is_remote(deps[i]) ==> fresh(prior, deps[i], heads[i]),
    ensures
        run_of(prior, next, deps, heads) == next,
        fetches_of(prior, deps, heads) == 0,
    decreases deps.len(),
{
    if deps.len() > 0 {
        let front = deps.drop_last();
        assert forall|i: int| 0 <= i < front.len() && is_remote(front[i]) implies fresh(
            prior,
            front[i],
            heads.drop_last()[i],
        ) by {
            assert(front[i] == deps[i] && heads.drop_last()[i] == heads[i]);
        }
        lemma_fresh_run_is_still(prior, next, front, heads.drop_last());
    }
}

/// One step of a run is what its plan says: a dependency whose copy is used
/// again leaves the record alone, and one that is fetched is remembered anew.
pub proof fn lemma_step_follows_plan(
    prior: Seq<EntryView>,
    next: Seq<EntryView>,
    dep: DependencyView,
    head: Seq<char>,
    on_disk: bool,
)
    requires
        is_remote(dep),
    ensures
        step_of(prior, next, dep, head) == if plan_of(prior, dep, head, on_disk) == PlanView::Reuse {
            next
        } else {
            refreshed(next, dep, head)
        },
{
}

/// Resolving twice in a row, with remote checks on and no branch head moved
/// in between, leaves the record of the first run untouched and fetches
/// nothing the second time, provided no two of the remote dependencies name
/// the same repository.
pub proof fn lemma_resolution_idempotent(
    prior: Seq<EntryView>,
    deps: Seq<DependencyView>,
    heads: Seq<Seq<char>>,
)
    requires
        deps.len() == heads.len(),
        distinct_repositories(deps),
    ensures
        ({
            let first = run_of(prior, prior, deps, heads);
            run_of(first, first, deps, heads) == first && fetches_of(first, deps, heads) == 0
        }),
{
    let first = run_of(prior, prior, deps, heads);
    assert forall|i: int| 0 <= i < deps.len() && is_remote(deps[i]) implies fresh(
        first,
        deps[i],
        heads[i],
    ) by {
        lemma_run_makes_fresh(prior, deps, heads, i);
    }
    lemma_fresh_run_is_still(first, first, deps, heads);
}

/// Where a dependency without a pin was fetched while its branch stood at
/// `was`, and the branch has since moved to `now`, the next resolution
/// fetches it again, removing the copy on disk first, and the record then
/// holds the new head for its repository and no other.
pub proof fn lemma_moved_head_refetches(
    entries: Seq<EntryView>,
    dep: DependencyView,
    was: Seq<char>,
    now: Seq<char>,
    on_disk: bool,
)
    requires
        dep.sha is None,
        was != now,
    ensures
        ({
            let remembered = refreshed(entries, dep, was);
            let after = refreshed(remembered, dep, now);
            &&& plan_of(remembered, dep, now, on_disk) == (PlanView::Fetch {
                remove_existing: on_disk,
                revision: now,
            })
            &&& after.last() == entry_for(dep, now)
            &&& forall|i: int|
                0 <= i < after.len() && after[i].uri == dep.uri ==> (#[trigger] after[i]).hash
                    == now
        }),
{
    let remembered = refreshed(entries, dep, was);
    let after = refreshed(remembered, dep, now);
    assert forall|i: int| 0 <= i < remembered.len() implies !entry_fresh(
        #[trigger] remembered[i],
        dep,
        now,
    ) by {
        if i < remembered.len() - 1 {
            let kept = without_uri(entries, dep.uri);
            assert(kept.contains(kept[i]));
            lemma_without_uri_only(entries, dep.uri, kept[i]);
        }
    }
    assert forall|i: int| 0 <= i < after.len() && after[i].uri == dep.uri implies (
    #[trigger] after[i]).hash == now by {
        if i < after.len() - 1 {
            let kept = without_uri(remembered, dep.uri);
            assert(kept.contains(kept[i]));
            lemma_without_uri_only(remembered, dep.uri, kept[i]);
        }
    }
}

/// Where a dependency with a pin was fetched, it is used again as long as
/// the pin stays, wherever the head of its branch has moved to.
pub proof fn lemma_pin_outlives_head(
    entries: Seq<EntryView>,
    dep: DependencyView,
    was: Seq<char>,
    now: Seq<char>,
    on_disk: bool,
)
    requires
        dep.sha is Some,
    ensures
        plan_of(refreshed(entries, dep, was), dep, now, on_disk) == PlanView::Reuse,
{
    let remembered = refreshed(entries, dep, was);
    assert(entry_fresh(remembered[remembered.len() - 1], dep, now));
}

} // verus!
