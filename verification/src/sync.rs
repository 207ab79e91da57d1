//! The link between the log and the collection. A fresh collection is in
//! step with its log, and every operation keeps it so: the collection is
//! always the one that the log describes up to its cursor, and undo and
//! redo move it between the collections that the log describes.
//!
//! An edit drops the entries behind the cursor before it is recorded, so
//! the log never describes more than the path that was taken.

use vstd::prelude::*;
use crate::action::UndoAction;
use crate::countries::CountriesState;
use crate::country::Country;
use crate::history::{replay, HistoryState};

verus! {

/// What the first `upto` entries describe depends on those entries alone.
proof fn lemma_replay_of_prefix(a: Seq<UndoAction>, b: Seq<UndoAction>, upto: int)
    requires
        upto <= a.len(),
        upto <= b.len(),
        a.take(upto) == b.take(upto),
    ensures
        replay(a, upto) == replay(b, upto),
    decreases upto,
{
    if upto > 0 {
        assert(a.take(upto - 1) =~= a.take(upto).take(upto - 1));
        assert(b.take(upto - 1) =~= b.take(upto).take(upto - 1));
        lemma_replay_of_prefix(a, b, upto - 1);
        assert(a[upto - 1] == a.take(upto)[upto - 1]);
        assert(b[upto - 1] == b.take(upto)[upto - 1]);
    }
}

/// A log stays truthful when an edit is recorded in it, provided that the
/// edit, if it is a removal, names the last record of the collection that
/// the log describes up to its cursor.
proof fn lemma_record_keeps_truthful(h: HistoryState, edit: UndoAction)
    requires
        h.wf(),
        h.truthful(),
        edit.action_type is Remove ==> {
            &&& replay(h.actions, h.current + 1).len() > 0
            &&& replay(h.actions, h.current + 1).last() == edit.country->0
        },
    ensures
        h.record(edit).truthful(),
{
    let after = h.record(edit).actions;
    assert forall|i: int|
        0 <= i < after.len() && (#[trigger] after[i]).action_type is Remove implies {
        &&& replay(after, i).len() > 0
        &&& replay(after, i).last() == after[i].country->0
    } by {
        assert(after.take(i) =~= h.actions.take(i));
        lemma_replay_of_prefix(after, h.actions, i);
    }
}

/// What a log describes after `edit` has been recorded is `edit` applied to
/// what the log described up to its cursor before.
proof fn lemma_replay_of_record(h: HistoryState, edit: UndoAction)
    requires
        h.wf(),
    ensures
        replay(h.record(edit).actions, h.current + 3) == edit.apply(
            replay(h.actions, h.current + 1),
        ),
{
    let after = h.record(edit).actions;
    assert(after.take(h.current + 1) =~= h.actions.take(h.current + 1));
    lemma_replay_of_prefix(after, h.actions, h.current + 1);
    // The boundary that closes the log describes no change.
    assert(replay(after, h.current + 3) == replay(after, h.current + 2));
}

/// A fresh collection is in step with its log.
pub proof fn lemma_initial_in_sync()
    ensures
        CountriesState::initial().in_sync(),
{
    let h = HistoryState::initial();
    // The origin boundary describes the empty collection.
    assert(replay(h.actions, 1) == replay(h.actions, 0));
}

/// An edit keeps the collection in step with its log, wherever the cursor
/// stands when it is made.
pub proof fn lemma_edit_keeps_in_sync(s: CountriesState, country: Country)
    requires
        s.wf(),
        s.in_sync(),
    ensures
        s.add_country(country).in_sync(),
        s.remove_country().in_sync(),
{
    let h = s.history;
    let insert = s.add_country(country).history.undo_target();
    lemma_record_keeps_truthful(h, insert);
    lemma_replay_of_record(h, insert);
    if s.countries.len() > 0 {
        let remove = s.remove_country().history.undo_target();
        lemma_record_keeps_truthful(h, remove);
        lemma_replay_of_record(h, remove);
    }
}

/// In a state that is in step with its log an undo leaves the collection
/// that the log describes up to the boundary before the edit, and a redo
/// the one that it describes up to the boundary behind the edit.
pub proof fn lemma_replay_moves_along_log(s: CountriesState)
    requires
        s.wf(),
        s.in_sync(),
    ensures
        s.history.can_undo() ==> s.undo().countries == replay(
            s.history.actions,
            s.history.current - 1,
        ),
        s.history.can_redo() ==> s.redo().countries == replay(
            s.history.actions,
            s.history.current + 3,
        ),
{
    let h = s.history;
    if h.can_undo() {
        // The boundary under the cursor describes no change.
        assert(replay(h.actions, h.current + 1) == replay(h.actions, h.current));
    }
    if h.can_redo() {
        // The boundary behind the redone edit describes no change.
        assert(replay(h.actions, h.current + 3) == replay(h.actions, h.current + 2));
    }
}

/// In a state that is in step with its log every undo and redo finds the
/// record it speaks of: an insertion that is undone, and a removal that is
/// redone, names the last record of the collection, which is then dropped.
pub proof fn lemma_replay_finds_its_record(s: CountriesState)
    requires
        s.wf(),
        s.in_sync(),
    ensures
        s.history.can_undo() && s.history.undo_target().action_type is Insert ==> {
            &&& s.countries.len() > 0
            &&& s.countries.last() == s.history.undo_target().country->0
        },
        s.history.can_redo() && s.history.redo_target().action_type is Remove ==> {
            &&& s.countries.len() > 0
            &&& s.countries.last() == s.history.redo_target().country->0
        },
{
    let h = s.history;
    // The boundary under the cursor describes no change.
    assert(replay(h.actions, h.current + 1) == replay(h.actions, h.current));
}

/// Undo and redo keep the collection in step with its log.
pub proof fn lemma_replay_keeps_in_sync(s: CountriesState)
    requires
        s.wf(),
        s.in_sync(),
    ensures
        s.undo().in_sync(),
        s.redo().in_sync(),
{
    lemma_replay_moves_along_log(s);
}

} // verus!
