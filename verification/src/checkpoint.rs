//! Resuming from a checkpoint.
//!
//! The runner keeps, for each database, the highest version it has applied.
//! When the application starts it applies the revisions above that marker, in
//! the list's order. This module states that rule and proves that, for a list
//! whose versions are positive and increase, resuming from any checkpoint ends
//! where a fresh install ends.

use vstd::prelude::*;
use crate::migration::{versions_increase, versions_positive, views, Migration, MigrationView};

verus! {

/// The revisions that are still to be applied when the highest applied
/// version is `marker`: those with a greater version, in the list's order.
pub open spec fn pending(revisions: Seq<MigrationView>, marker: int) -> Seq<MigrationView> {
    revisions.filter(|revision: MigrationView| revision.version > marker)
}

/// Returns the revisions that are still to be applied when the highest
/// applied version is `marker`, in the order in which the list holds them.
pub fn pending_after(migrations: &[Migration], marker: i64) -> (rest: Vec<Migration>)
    ensures
        views(rest@) == pending(views(migrations@), marker as int),
{
    let ghost all = views(migrations@);
    let ghost above = |revision: MigrationView| revision.version > marker as int;
    let mut rest: Vec<Migration> = Vec::new();
    let mut i: usize = 0;
    proof {
        all.take(0).lemma_filter_len(above);
    }
    while i < migrations.len()
        invariant
            i <= migrations.len(),
            all == views(migrations@),
            above == |revision: MigrationView| revision.version > marker as int,
            views(rest@) == all.take(i as int).filter(above),
        decreases migrations.len() - i,
    {
        let migration = migrations[i];
        proof {
            assert(all.take(i + 1) == all.take(i as int).push(migration@));
            all.take(i as int).lemma_filter_push(migration@, above);
        }
        if migration.version > marker {
            rest.push(migration);
        }
        i += 1;
    }
    assert(all.take(i as int) == all);
    rest
}

/// The marker of a database to which the first `count` revisions of the list
/// were applied: the version of the last of them, and 0 where none was.
pub open spec fn marker_after(revisions: Seq<MigrationView>, count: int) -> int {
    if count <= 0 {
        0
    } else {
        revisions[count - 1].version
    }
}

/// The state that a database reaches from `state` when the revisions are
/// applied to it one after the other, where `effect` is what the database
/// engine makes of one revision.
pub open spec fn applied<S>(
    effect: spec_fn(S, MigrationView) -> S,
    state: S,
    revisions: Seq<MigrationView>,
) -> S {
    revisions.fold_left(state, effect)
}

/// A list in which no revision is above the marker has nothing pending.
proof fn lemma_nothing_pending(revisions: Seq<MigrationView>, marker: int)
    requires
        forall|i: int| 0 <= i < revisions.len() ==> (#[trigger] revisions[i]).version <= marker,
    ensures
        pending(revisions, marker) == Seq::<MigrationView>::empty(),
    decreases revisions.len(),
{
    let above = |revision: MigrationView| revision.version > marker;
    if revisions.len() > 0 {
        let front = revisions.drop_last();
        lemma_nothing_pending(front, marker);
        assert(revisions == front.push(revisions.last()));
        front.lemma_filter_push(revisions.last(), above);
    } else {
        revisions.lemma_filter_len(above);
        assert(revisions.filter(above) =~= Seq::<MigrationView>::empty());
    }
}

/// A list in which every revision is above the marker is pending as a whole.
proof fn lemma_everything_pending(revisions: Seq<MigrationView>, marker: int)
    requires
        forall|i: int| 0 <= i < revisions.len() ==> (#[trigger] revisions[i]).version > marker,
    ensures
        pending(revisions, marker) == revisions,
    decreases revisions.len(),
{
    let above = |revision: MigrationView| revision.version > marker;
    if revisions.len() > 0 {
        let front = revisions.drop_last();
        lemma_everything_pending(front, marker);
        assert(revisions == front.push(revisions.last()));
        front.lemma_filter_push(revisions.last(), above);
    } else {
        revisions.lemma_filter_len(above);
        assert(revisions.filter(above) =~= revisions);
    }
}

/// After the first `count` revisions of an ordered list were applied, the
/// pending revisions are exactly the rest of the list.
pub proof fn lemma_pending_is_the_rest(revisions: Seq<MigrationView>, count: int)
    requires
        versions_positive(revisions),
        versions_increase(revisions),
        0 <= count <= revisions.len(),
    ensures
        pending(revisions, marker_after(revisions, count)) == revisions.skip(count),
{
    let marker = marker_after(revisions, count);
    let above = |revision: MigrationView| revision.version > marker;
    let done = revisions.take(count);
    let rest = revisions.skip(count);
    assert forall|i: int| 0 <= i < done.len() implies (#[trigger] done[i]).version <= marker by {
        assert(done[i] == revisions[i]);
        if i < count - 1 {
            assert(revisions[i].version < revisions[count - 1].version);
        }
    }
    assert forall|i: int| 0 <= i < rest.len() implies (#[trigger] rest[i]).version > marker by {
        assert(rest[i] == revisions[count + i]);
        if count > 0 {
            assert(revisions[count - 1].version < revisions[count + i].version);
        }
    }
    lemma_nothing_pending(done, marker);
    lemma_everything_pending(rest, marker);
    assert(revisions == done + rest);
    Seq::filter_distributes_over_add(done, rest, above);
    assert(Seq::<MigrationView>::empty() + rest =~= rest);
}

/// Resuming converges: whatever the engine makes of a revision, a database
/// that stopped after the first `count` revisions of an ordered list and then
/// receives what is pending reaches the state of a database that received the
/// whole list at once.
pub proof fn lemma_resuming_converges<S>(
    effect: spec_fn(S, MigrationView) -> S,
    fresh: S,
    revisions: Seq<MigrationView>,
    count: int,
)
    requires
        versions_positive(revisions),
        versions_increase(revisions),
        0 <= count <= revisions.len(),
    ensures
        applied(
            effect,
            applied(effect, fresh, revisions.take(count)),
            pending(revisions, marker_after(revisions, count)),
        ) == applied(effect, fresh, revisions),
{
    lemma_pending_is_the_rest(revisions, count);
    revisions.lemma_fold_left_split(fresh, effect, count);
    assert(revisions.take(count) == revisions.subrange(0, count));
    assert(revisions.skip(count) == revisions.subrange(count, revisions.len() as int));
}

} // verus!
