//! What holds of the ledger across operations.
//!
//! The statements are over the ledger's records alone. What the file system
//! holds before and after an action is carried out is the caller's affair.

use crate::actions::{
    after_attempt, committed, lies_at, listing, lookup, purge, reconciled, removal, restoration,
    rows, still_there, ActionView, FileKind, Row,
};
use crate::file_list::{derived, distinct_trash_paths, entry_of, other_than, Entry};
use crate::path::Locations;
use vstd::prelude::*;

verus! {

/// A filter that every element passes keeps the sequence as it is.
proof fn lemma_filter_keeps_all<A>(s: Seq<A>, pred: spec_fn(A) -> bool)
    requires
        forall|i: int| 0 <= i < s.len() ==> pred(#[trigger] s[i]),
    ensures
        s.filter(pred) == s,
    decreases s.len(),
{
    reveal(Seq::filter);
    if s.len() > 0 {
        lemma_filter_keeps_all(s.drop_last(), pred);
        assert(s.drop_last().push(s.last()) == s);
    }
}

/// A filter that no element passes keeps nothing.
proof fn lemma_filter_keeps_none<A>(s: Seq<A>, pred: spec_fn(A) -> bool)
    requires
        forall|i: int| 0 <= i < s.len() ==> !pred(#[trigger] s[i]),
    ensures
        s.filter(pred).len() == 0,
    decreases s.len(),
{
    reveal(Seq::filter);
    if s.len() > 0 {
        lemma_filter_keeps_none(s.drop_last(), pred);
    }
}

/// A filter that some element does not pass makes the sequence shorter.
proof fn lemma_filter_drops_one<A>(s: Seq<A>, pred: spec_fn(A) -> bool, i: int)
    requires
        0 <= i < s.len(),
        !pred(s[i]),
    ensures
        s.filter(pred).len() < s.len(),
    decreases s.len(),
{
    reveal(Seq::filter);
    let front = s.drop_last();
    front.lemma_filter_len(pred);
    if i < s.len() - 1 {
        lemma_filter_drops_one(front, pred, i);
    }
}

/// Every element of a filtered sequence is one of the sequence.
proof fn lemma_filter_index<A>(s: Seq<A>, pred: spec_fn(A) -> bool, i: int) -> (k: int)
    requires
        0 <= i < s.filter(pred).len(),
    ensures
        0 <= k < s.len(),
        s[k] == s.filter(pred)[i],
{
    let kept = s.filter(pred);
    assert(kept.contains(kept[i]));
    s.lemma_filter_contains_rev(pred, kept[i]);
    choose|k: int| 0 <= k < s.len() && s[k] == kept[i]
}

/// The record that [`lookup`] finds is the first with the trash path: where
/// the record `i` has it and none before has, that record is found.
pub proof fn lemma_lookup_finds_first(ledger: Seq<Entry>, target: Seq<char>, i: int)
    requires
        0 <= i < ledger.len(),
        ledger[i].path_trash == target,
        forall|j: int| 0 <= j < i ==> (#[trigger] ledger[j]).path_trash != target,
    ensures
        lookup(ledger, target) == Some(ledger[i]),
{
    let wanted = lies_at(target);
    let before = ledger.take(i);
    let rest = ledger.skip(i + 1);
    assert(ledger == before.push(ledger[i]) + rest);
    lemma_filter_keeps_none(before, wanted);
    before.lemma_filter_push(ledger[i], wanted);
    Seq::filter_distributes_over_add(before.push(ledger[i]), rest, wanted);
    assert(before.push(ledger[i]).filter(wanted) == seq![ledger[i]]);
}

/// Restoring a path that no record has as its trash path plans nothing, so
/// that nothing is carried out and the ledger stays as it is.
pub proof fn lemma_restore_without_match(ledger: Seq<Entry>, target: Seq<char>)
    requires
        forall|i: int| 0 <= i < ledger.len() ==> (#[trigger] ledger[i]).path_trash != target,
    ensures
        restoration(ledger, target) is None,
{
    lemma_filter_keeps_none(ledger, lies_at(target));
}

/// A plan to restore names a record of the ledger, and one with the trash
/// path that was asked for.
pub proof fn lemma_restore_names_a_record(ledger: Seq<Entry>, target: Seq<char>)
    ensures
        restoration(ledger, target) matches Some(ActionView::Restore(entry)) ==> ledger.contains(
            entry,
        ) && entry.path_trash == target,
        restoration(ledger, target) is None ==> forall|i: int|
            0 <= i < ledger.len() ==> (#[trigger] ledger[i]).path_trash != target,
{
    let wanted = lies_at(target);
    let found = ledger.filter(wanted);
    if found.len() > 0 {
        ledger.lemma_filter_pred(wanted, 0);
        assert(found.contains(found[0]));
        ledger.lemma_filter_contains_rev(wanted, found[0]);
    } else {
        assert forall|i: int| 0 <= i < ledger.len() implies (#[trigger] ledger[i]).path_trash
            != target by {
            if ledger[i].path_trash == target {
                ledger.lemma_filter_contains(wanted, i);
            }
        }
    }
}

/// Restoring drops the record that is restored and no other: a younger
/// record of the same trash path, from another original path, stays in the
/// ledger though nothing lies at its trash path any more.
pub proof fn lemma_restore_leaves_younger_record(
    ledger: Seq<Entry>,
    target: Seq<char>,
    i: int,
    j: int,
)
    requires
        0 <= i < j < ledger.len(),
        ledger[i].path_trash == target,
        ledger[j].path_trash == target,
        ledger[i] != ledger[j],
        forall|k: int| 0 <= k < i ==> (#[trigger] ledger[k]).path_trash != target,
    ensures
        restoration(ledger, target) == Some(ActionView::Restore(ledger[i])),
        committed(ledger, ActionView::Restore(ledger[i])).contains(ledger[j]),
{
    lemma_lookup_finds_first(ledger, target, i);
    ledger.lemma_filter_contains(other_than(ledger[i]), j);
}

/// Moving an item to the trash and restoring it from there leaves the ledger
/// as it was. This is so for an item that is no symbolic link, and where no
/// record of the ledger has the trash path that the item gets: the plan to
/// restore then names the record just added, and dropping it gives the ledger
/// back.
pub proof fn lemma_remove_then_restore(
    ledger: Seq<Entry>,
    path: Seq<char>,
    kind: FileKind,
    trash: Seq<char>,
)
    requires
        kind != FileKind::Symlink,
        forall|i: int|
            0 <= i < ledger.len() ==> (#[trigger] ledger[i]).path_trash != entry_of(
                trash,
                path,
            ).path_trash,
    ensures
        ({
            let entry = entry_of(trash, path);
            let trashed = committed(ledger, removal(path, kind, trash));
            &&& trashed == ledger.push(entry)
            &&& restoration(trashed, entry.path_trash) == Some(ActionView::Restore(entry))
            &&& committed(trashed, ActionView::Restore(entry)) == ledger
        }),
{
    let entry = entry_of(trash, path);
    let trashed = ledger.push(entry);
    lemma_lookup_finds_first(trashed, entry.path_trash, ledger.len() as int);
    ledger.lemma_filter_push(entry, other_than(entry));
    lemma_filter_keeps_all(ledger, other_than(entry));
}

/// Removing a symbolic link deletes the link: nothing is moved to the trash,
/// and the ledger gets no record.
pub proof fn lemma_symlink_bypasses_trash(ledger: Seq<Entry>, path: Seq<char>, trash: Seq<char>)
    ensures
        removal(path, FileKind::Symlink, trash) == ActionView::Unlink(path),
        committed(ledger, removal(path, FileKind::Symlink, trash)) == ledger,
{
}

/// An action that could not be carried out leaves the ledger as it is,
/// whatever the action: an item that was not moved is not recorded, and a
/// record is not dropped while its item is still in the trash.
pub proof fn lemma_failed_attempt_keeps_ledger(
    ledger: Seq<Entry>,
    action: ActionView,
    text: String,
)
    ensures
        after_attempt(ledger, action, Err(text)) == ledger,
{
}

/// Deleting an item for good leaves the ledger as it is.
pub proof fn lemma_delete_keeps_ledger(ledger: Seq<Entry>, path: Seq<char>)
    ensures
        committed(ledger, ActionView::Delete(path)) == ledger,
{
}

/// Cleaning a trash whose ledger is not empty deletes the trash directory
/// and the ledger file, and no record is left.
pub proof fn lemma_clean_resets(ledger: Seq<Entry>, places: Locations)
    requires
        ledger.len() > 0,
    ensures
        purge(ledger, places) == Some(
            ActionView::Purge { trash: places.trash, list: places.list },
        ),
        committed(ledger, purge(ledger, places)->0) == Seq::<Entry>::empty(),
{
}

/// Listing is repeatable: two listings of one ledger, for which the same was
/// found in the trash, show the same lines.
pub proof fn lemma_list_twice(
    ledger: Seq<Entry>,
    kinds: Seq<Option<FileKind>>,
    first: Seq<Row>,
    second: Seq<Row>,
)
    requires
        rows(first) == listing(ledger, kinds),
        rows(second) == listing(ledger, kinds),
    ensures
        first.len() == second.len(),
        forall|i: int| 0 <= i < first.len() ==> first[i]@.line() == second[i]@.line(),
{
    assert(rows(first).len() == first.len());
    assert(rows(second).len() == second.len());
    assert forall|i: int| 0 <= i < first.len() implies first[i]@.line() == second[i]@.line() by {
        assert(rows(first)[i] == first[i]@);
        assert(rows(second)[i] == second[i]@);
    }
}

/// Reconciling keeps exactly the records whose trash path is not missing.
pub proof fn lemma_reconciled_holds(ledger: Seq<Entry>, missing: Seq<Seq<char>>, entry: Entry)
    ensures
        reconciled(ledger, missing).contains(entry) <==> ledger.contains(entry)
            && !missing.contains(entry.path_trash),
{
    let present = still_there(missing);
    let kept = ledger.filter(present);
    if kept.contains(entry) {
        let i = choose|i: int| 0 <= i < kept.len() && kept[i] == entry;
        ledger.lemma_filter_pred(present, i);
        ledger.lemma_filter_contains_rev(present, entry);
    }
    if ledger.contains(entry) && !missing.contains(entry.path_trash) {
        let i = choose|i: int| 0 <= i < ledger.len() && ledger[i] == entry;
        ledger.lemma_filter_contains(present, i);
    }
}

/// A record whose trash path is missing is not in the reconciled ledger,
/// which is shorter than the ledger was.
pub proof fn lemma_reconciled_drops(ledger: Seq<Entry>, missing: Seq<Seq<char>>, i: int)
    requires
        0 <= i < ledger.len(),
        missing.contains(ledger[i].path_trash),
    ensures
        !reconciled(ledger, missing).contains(ledger[i]),
        reconciled(ledger, missing).len() < ledger.len(),
{
    lemma_reconciled_holds(ledger, missing, ledger[i]);
    lemma_filter_drops_one(ledger, still_there(missing), i);
}

/// Reconciling a ledger none of whose trash paths is missing leaves it as it
/// is.
pub proof fn lemma_reconciled_nothing_missing(ledger: Seq<Entry>, missing: Seq<Seq<char>>)
    requires
        forall|i: int|
            0 <= i < ledger.len() ==> !missing.contains((#[trigger] ledger[i]).path_trash),
    ensures
        reconciled(ledger, missing) == ledger,
{
    lemma_filter_keeps_all(ledger, still_there(missing));
}

/// Dropping records leaves the trash paths of the others distinct.
proof fn lemma_filter_keeps_distinct(ledger: Seq<Entry>, pred: spec_fn(Entry) -> bool)
    requires
        distinct_trash_paths(ledger),
    ensures
        distinct_trash_paths(ledger.filter(pred)),
    decreases ledger.len(),
{
    reveal(Seq::filter);
    if ledger.len() > 0 {
        let front = ledger.drop_last();
        let kept = front.filter(pred);
        assert forall|i: int, j: int| 0 <= i < j < front.len() implies (#[trigger] front[i]).path_trash
            != (#[trigger] front[j]).path_trash by {
            assert(front[i] == ledger[i] && front[j] == ledger[j]);
        }
        lemma_filter_keeps_distinct(front, pred);
        if pred(ledger.last()) {
            assert forall|i: int| 0 <= i < kept.len() implies (#[trigger] kept[i]).path_trash
                != ledger.last().path_trash by {
                let k = lemma_filter_index(front, pred, i);
                assert(ledger[k] == kept[i]);
            }
        }
    }
}

/// A ledger whose trash paths are distinct keeps them distinct through every
/// action, but for one: trashing an item whose trash path a record already
/// has. Nothing looks for such a record before the item is moved.
pub proof fn lemma_commit_keeps_distinct(ledger: Seq<Entry>, action: ActionView)
    requires
        distinct_trash_paths(ledger),
        action matches ActionView::Trash(entry) ==> forall|i: int|
            0 <= i < ledger.len() ==> (#[trigger] ledger[i]).path_trash != entry.path_trash,
    ensures
        distinct_trash_paths(committed(ledger, action)),
{
    match action {
        ActionView::Restore(entry) => {
            lemma_filter_keeps_distinct(ledger, other_than(entry));
        },
        _ => {},
    }
}

/// Reconciling a ledger whose trash paths are distinct keeps them distinct.
pub proof fn lemma_reconciled_keeps_distinct(ledger: Seq<Entry>, missing: Seq<Seq<char>>)
    requires
        distinct_trash_paths(ledger),
    ensures
        distinct_trash_paths(reconciled(ledger, missing)),
{
    lemma_filter_keeps_distinct(ledger, still_there(missing));
}

/// In a ledger whose trash paths are distinct, the record that is restored
/// is the only one with its trash path, and once it is dropped no record has
/// that path.
pub proof fn lemma_restore_clears_trash_path(ledger: Seq<Entry>, target: Seq<char>)
    requires
        distinct_trash_paths(ledger),
    ensures
        restoration(ledger, target) matches Some(action) ==> forall|i: int|
            0 <= i < committed(ledger, action).len() ==> (#[trigger] committed(
                ledger,
                action,
            )[i]).path_trash != target,
{
    lemma_restore_names_a_record(ledger, target);
    if let Some(ActionView::Restore(entry)) = restoration(ledger, target) {
        let rest = ledger.filter(other_than(entry));
        assert forall|i: int| 0 <= i < rest.len() implies (#[trigger] rest[i]).path_trash
            != target by {
            ledger.lemma_filter_pred(other_than(entry), i);
            let k = lemma_filter_index(ledger, other_than(entry), i);
            let e = choose|e: int| 0 <= e < ledger.len() && ledger[e] == entry;
            if ledger[k].path_trash == target {
                assert(k != e);
                if k < e {
                    assert(ledger[k].path_trash != ledger[e].path_trash);
                } else {
                    assert(ledger[e].path_trash != ledger[k].path_trash);
                }
            }
        }
    }
}

/// A ledger that holds only records derived from the trash directory holds
/// only such records after a removal into that directory, after a
/// restoring, after a purge and after a deletion.
pub proof fn lemma_commit_keeps_derived(ledger: Seq<Entry>, action: ActionView, trash: Seq<char>)
    requires
        derived(ledger, trash),
        action matches ActionView::Trash(entry) ==> entry == entry_of(trash, entry.path),
    ensures
        derived(committed(ledger, action), trash),
{
    let after = committed(ledger, action);
    assert forall|i: int| 0 <= i < after.len() implies #[trigger] after[i] == entry_of(
        trash,
        after[i].path,
    ) by {
        match action {
            ActionView::Restore(entry) => {
                let k = lemma_filter_index(ledger, other_than(entry), i);
            },
            _ => {},
        }
    }
}

/// Reconciling a ledger that holds only records derived from the trash
/// directory leaves only such records.
pub proof fn lemma_reconciled_keeps_derived(
    ledger: Seq<Entry>,
    missing: Seq<Seq<char>>,
    trash: Seq<char>,
)
    requires
        derived(ledger, trash),
    ensures
        derived(reconciled(ledger, missing), trash),
{
    let after = reconciled(ledger, missing);
    assert forall|i: int| 0 <= i < after.len() implies #[trigger] after[i] == entry_of(
        trash,
        after[i].path,
    ) by {
        let k = lemma_filter_index(ledger, still_there(missing), i);
    }
}

} // verus!
