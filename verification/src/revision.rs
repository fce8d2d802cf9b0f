//! File revisions: creating them, committing them, and the history of a file.
use vstd::prelude::*;
use vstd::multiset::Multiset;
use crate::model::{ChunkIndex, NodeId, RevisionEntity, RevisionId};

verus! {

/// The time a committed revision's upload ended.
pub open spec fn ended(revision: RevisionEntity) -> i64 {
    revision.upload_ended_on->0
}

/// The committed revisions among `revisions`, in their order.
pub open spec fn committed(revisions: Seq<RevisionEntity>) -> Seq<RevisionEntity>
    decreases revisions.len(),
{
    if revisions.len() == 0 {
        Seq::empty()
    } else {
        let rest = committed(revisions.drop_last());
        if revisions.last().upload_ended_on is Some {
            rest.push(revisions.last())
        } else {
            rest
        }
    }
}

/// A committed revision put into a history that runs from the newest to the oldest:
/// after every revision that ended at the same time or later.
pub open spec fn insert_by_end(history: Seq<RevisionEntity>, revision: RevisionEntity) -> Seq<RevisionEntity>
    decreases history.len(),
{
    if history.len() == 0 {
        seq![revision]
    } else if ended(history[0]) < ended(revision) {
        seq![revision] + history
    } else {
        seq![history[0]] + insert_by_end(history.drop_first(), revision)
    }
}

/// The revisions ordered from the newest to the oldest end of upload; revisions that
/// ended at the same time keep their order (a stable sort).
pub open spec fn newest_first(revisions: Seq<RevisionEntity>) -> Seq<RevisionEntity>
    decreases revisions.len(),
{
    if revisions.len() == 0 {
        Seq::empty()
    } else {
        insert_by_end(newest_first(revisions.drop_last()), revisions.last())
    }
}

/// Whether a history runs from the newest to the oldest end of upload.
pub open spec fn is_newest_first(history: Seq<RevisionEntity>) -> bool {
    forall|i: int, j: int| 0 <= i < j < history.len() ==> ended(history[j]) <= ended(history[i])
}

proof fn lemma_insert_at(history: Seq<RevisionEntity>, revision: RevisionEntity, i: int)
    requires
        0 <= i <= history.len(),
        forall|k: int| 0 <= k < i ==> ended(revision) <= ended(#[trigger] history[k]),
        i == history.len() || ended(history[i]) < ended(revision),
    ensures
        insert_by_end(history, revision) == history.insert(i, revision),
    decreases i,
{
    if i == 0 {
        if history.len() == 0 {
            assert(history.insert(0, revision) =~= seq![revision]);
        } else {
            assert(history.insert(0, revision) =~= seq![revision] + history);
        }
    } else {
        let rest = history.drop_first();
        assert forall|k: int| 0 <= k < i - 1 implies ended(revision) <= ended(#[trigger] rest[k]) by {
            assert(rest[k] == history[k + 1]);
        }
        if i < history.len() {
            assert(rest[i - 1] == history[i]);
        }
        lemma_insert_at(rest, revision, i - 1);
        assert(history.insert(i, revision) =~= seq![history[0]] + rest.insert(i - 1, revision));
    }
}

/// The time a committed revision's upload ended.
fn end_time(revision: &RevisionEntity) -> (end: i64)
    requires
        revision.upload_ended_on is Some,
    ensures
        end == ended(*revision),
{
    match revision.upload_ended_on {
        Some(t) => t,
        None => 0,
    }
}

/// The committed revisions of a file, newest first; revisions that ended at the same
/// time keep the order they were given in.
pub fn revision_history(revisions: Vec<RevisionEntity>) -> (history: Vec<RevisionEntity>)
    ensures
        history@ == newest_first(committed(revisions@)),
{
    let mut finished: Vec<RevisionEntity> = Vec::new();
    let mut i: usize = 0;
    while i < revisions.len()
        invariant
            i <= revisions@.len(),
            finished@ == committed(revisions@.subrange(0, i as int)),
            forall|k: int| 0 <= k < finished@.len() ==> (#[trigger] finished@[k]).upload_ended_on is Some,
        decreases revisions.len() - i,
    {
        assert(revisions@.subrange(0, i + 1).drop_last() =~= revisions@.subrange(0, i as int));
        let revision = revisions[i];
        if revision.upload_ended_on.is_some() {
            finished.push(revision);
        }
        i = i + 1;
    }
    assert(revisions@.subrange(0, i as int) =~= revisions@);
    let mut history: Vec<RevisionEntity> = Vec::new();
    let mut j: usize = 0;
    while j < finished.len()
        invariant
            j <= finished@.len(),
            finished@ == committed(revisions@),
            forall|k: int| 0 <= k < finished@.len() ==> (#[trigger] finished@[k]).upload_ended_on is Some,
            history@ == newest_first(finished@.subrange(0, j as int)),
            forall|k: int| 0 <= k < history@.len() ==> (#[trigger] history@[k]).upload_ended_on is Some,
        decreases finished.len() - j,
    {
        let revision = finished[j];
        let end = end_time(&revision);
        let mut position: usize = 0;
        while position < history.len() && !(end_time(&history[position]) < end)
            invariant
                position <= history@.len(),
                end == ended(revision),
                forall|k: int| 0 <= k < history@.len() ==> (#[trigger] history@[k]).upload_ended_on is Some,
                forall|k: int| 0 <= k < position ==> ended(revision) <= ended(#[trigger] history@[k]),
            decreases history.len() - position,
        {
            position = position + 1;
        }
        proof {
            lemma_insert_at(history@, revision, position as int);
            assert(finished@.subrange(0, j + 1).drop_last() =~= finished@.subrange(0, j as int));
            assert(finished@.subrange(0, j + 1).last() == revision);
        }
        let ghost before = history@;
        history.insert(position, revision);
        assert forall|k: int| 0 <= k < history@.len() implies (#[trigger] history@[k]).upload_ended_on is Some by {
            if k < position {
                assert(history@[k] == before[k]);
            } else if k > position {
                assert(history@[k] == before[k - 1]);
            }
        }
        j = j + 1;
    }
    assert(finished@.subrange(0, j as int) =~= finished@);
    history
}


proof fn lemma_insert_bounded(history: Seq<RevisionEntity>, revision: RevisionEntity, bound: int)
    requires
        forall|k: int| 0 <= k < history.len() ==> ended(#[trigger] history[k]) <= bound,
        ended(revision) <= bound,
    ensures
        forall|k: int|
            0 <= k < insert_by_end(history, revision).len() ==> ended(
                #[trigger] insert_by_end(history, revision)[k],
            ) <= bound,
        insert_by_end(history, revision).len() == history.len() + 1,
    decreases history.len(),
{
    if history.len() > 0 && !(ended(history[0]) < ended(revision)) {
        let rest = history.drop_first();
        lemma_insert_bounded(rest, revision, bound);
        let tail = insert_by_end(rest, revision);
        assert forall|k: int| 0 <= k < insert_by_end(history, revision).len() implies ended(
            #[trigger] insert_by_end(history, revision)[k],
        ) <= bound by {
            if k > 0 {
                assert(insert_by_end(history, revision)[k] == tail[k - 1]);
            }
        }
    }
}

proof fn lemma_insert_keeps_order(history: Seq<RevisionEntity>, revision: RevisionEntity)
    requires
        is_newest_first(history),
    ensures
        is_newest_first(insert_by_end(history, revision)),
        insert_by_end(history, revision).to_multiset() == history.to_multiset().insert(revision),
    decreases history.len(),
{
    broadcast use vstd::seq_lib::group_to_multiset_ensures;

    if history.len() == 0 {
        assert(seq![revision] =~= Seq::<RevisionEntity>::empty().push(revision));
    } else if ended(history[0]) < ended(revision) {
        assert(seq![revision] + history =~= history.insert(0, revision));
    } else {
        let rest = history.drop_first();
        lemma_insert_keeps_order(rest, revision);
        let tail = insert_by_end(rest, revision);
        lemma_insert_bounded(rest, revision, ended(history[0]) as int);
        let result = insert_by_end(history, revision);
        assert(result =~= tail.insert(0, history[0]));
        assert forall|i: int, j: int| 0 <= i < j < result.len() implies ended(result[j]) <= ended(
            result[i],
        ) by {
            if i > 0 {
                assert(result[i] == tail[i - 1]);
                assert(result[j] == tail[j - 1]);
            } else {
                assert(result[j] == tail[j - 1]);
            }
        }
        assert(history =~= rest.insert(0, history[0]));
        assert(result.to_multiset() =~= history.to_multiset().insert(revision));
    }
}

proof fn lemma_newest_first_sorted(revisions: Seq<RevisionEntity>)
    ensures
        is_newest_first(newest_first(revisions)),
        newest_first(revisions).to_multiset() == revisions.to_multiset(),
    decreases revisions.len(),
{
    broadcast use vstd::seq_lib::group_to_multiset_ensures;

    if revisions.len() > 0 {
        lemma_newest_first_sorted(revisions.drop_last());
        lemma_insert_keeps_order(newest_first(revisions.drop_last()), revisions.last());
        assert(revisions =~= revisions.drop_last().push(revisions.last()));
    } else {
        assert(revisions.to_multiset() =~= Multiset::<RevisionEntity>::empty());
        assert(newest_first(revisions).to_multiset() =~= Multiset::<RevisionEntity>::empty());
    }
}

proof fn lemma_committed_only(revisions: Seq<RevisionEntity>)
    ensures
        forall|k: int| 0 <= k < committed(revisions).len() ==> (#[trigger] committed(revisions)[k]).upload_ended_on is Some,
        forall|r: RevisionEntity| r.upload_ended_on is Some ==> #[trigger] committed(revisions).to_multiset().count(r)
            == revisions.to_multiset().count(r),
        forall|r: RevisionEntity| r.upload_ended_on is None ==> #[trigger] committed(revisions).to_multiset().count(r)
            == 0,
    decreases revisions.len(),
{
    broadcast use vstd::seq_lib::group_to_multiset_ensures;

    if revisions.len() > 0 {
        lemma_committed_only(revisions.drop_last());
        assert(revisions =~= revisions.drop_last().push(revisions.last()));
    } else {
        assert(revisions.to_multiset() =~= Multiset::<RevisionEntity>::empty());
        assert(committed(revisions).to_multiset() =~= Multiset::<RevisionEntity>::empty());
    }
}

/// The history of a file holds each committed revision as often as it was given,
/// holds no revision that is still being uploaded, and runs from the newest to the
/// oldest end of upload.
pub proof fn lemma_revision_history(revisions: Seq<RevisionEntity>)
    ensures
        ({
            let history = newest_first(committed(revisions));
            &&& is_newest_first(history)
            &&& forall|k: int| 0 <= k < history.len() ==> (#[trigger] history[k]).upload_ended_on is Some
            &&& forall|r: RevisionEntity| r.upload_ended_on is Some ==> #[trigger] history.to_multiset().count(r)
                == revisions.to_multiset().count(r)
            &&& forall|r: RevisionEntity| r.upload_ended_on is None ==> #[trigger] history.to_multiset().count(r)
                == 0
        }),
{
    broadcast use vstd::seq_lib::group_to_multiset_ensures;

    lemma_committed_only(revisions);
    lemma_newest_first_sorted(committed(revisions));
    let history = newest_first(committed(revisions));
    assert forall|k: int| 0 <= k < history.len() implies (#[trigger] history[k]).upload_ended_on is Some by {
        assert(history.to_multiset().count(history[k]) > 0);
    }
}

} // verus!
