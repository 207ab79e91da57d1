//! The history log: recorded edits, the cursor and the high-water mark.

use vstd::prelude::*;
use crate::action::{ActionType, UndoAction};
use crate::country::Country;

verus! {

/// What a history log holds, as mathematical values.
pub struct HistoryState {
    /// The entries in the order in which they were recorded.
    pub actions: Seq<UndoAction>,
    /// Index of the boundary the log stands at.
    pub current: int,
    /// Index of the boundary behind the most recent edit.
    pub max: int,
}

impl HistoryState {
    /// A fresh log: the origin boundary alone, with the cursor on it.
    pub open spec fn initial() -> HistoryState {
        HistoryState { actions: seq![UndoAction::mark()], current: 0, max: 0 }
    }

    /// The log begins with a boundary and then alternates edit, boundary;
    /// every entry is well formed; `max` is the index of the last entry and
    /// the cursor stands on a boundary not beyond it.
    pub open spec fn wf(self) -> bool {
        &&& self.actions.len() == self.max + 1
        &&& 0 <= self.current <= self.max
        &&& self.current % 2 == 0
        &&& self.max % 2 == 0
        &&& forall|i: int|
            0 <= i < self.actions.len() ==> {
                &&& (#[trigger] self.actions[i]).well_formed()
                &&& self.actions[i].is_edit() <==> i % 2 == 1
            }
    }

    /// The log after a boundary has been appended and the cursor moved on by
    /// one.
    pub open spec fn append_mark(self) -> HistoryState {
        HistoryState {
            actions: self.actions.push(UndoAction::mark()),
            current: self.current + 1,
            max: self.max,
        }
    }

    /// The log after `edit` has been recorded: the entries behind the
    /// cursor are dropped, the edit and a boundary are appended, and both
    /// the cursor and `max` name that boundary.
    pub open spec fn record(self, edit: UndoAction) -> HistoryState {
        HistoryState {
            actions: self.actions.take(self.current + 1).push(edit).push(UndoAction::mark()),
            current: self.current + 2,
            max: self.current + 2,
        }
    }

    /// There is an edit behind the cursor.
    pub open spec fn can_undo(self) -> bool {
        self.current > 0
    }

    /// There is an edit ahead of the cursor.
    pub open spec fn can_redo(self) -> bool {
        self.max > self.current
    }

    /// The edit just behind the cursor: the one that an undo reverses.
    pub open spec fn undo_target(self) -> UndoAction {
        self.actions[self.current - 1]
    }

    /// The edit just ahead of the cursor: the one that a redo applies again.
    pub open spec fn redo_target(self) -> UndoAction {
        self.actions[self.current + 1]
    }

    /// The log with the cursor on the previous boundary.
    pub open spec fn step_back(self) -> HistoryState {
        HistoryState { current: self.current - 2, ..self }
    }

    /// The log with the cursor on the next boundary.
    pub open spec fn step_forward(self) -> HistoryState {
        HistoryState { current: self.current + 2, ..self }
    }

    /// Every removal in the log names the record that was last in the
    /// collection that the entries before it describe.
    pub open spec fn truthful(self) -> bool {
        forall|i: int|
            0 <= i < self.actions.len() && (#[trigger] self.actions[i]).action_type is Remove ==> {
                &&& replay(self.actions, i).len() > 0
                &&& replay(self.actions, i).last() == self.actions[i].country->0
            }
    }
}

/// The collection that the first `upto` entries of `actions` describe: the
/// edits among them applied in order, starting from the empty collection.
pub open spec fn replay(actions: Seq<UndoAction>, upto: int) -> Seq<Country>
    decreases upto,
{
    if upto <= 0 {
        Seq::empty()
    } else {
        actions[upto - 1].apply(replay(actions, upto - 1))
    }
}

/// The history log.
pub struct UndoHistory {
    actions: Vec<UndoAction>,
    current_action: usize,
    max_action: usize,
}

impl View for UndoHistory {
    type V = HistoryState;

    closed spec fn view(&self) -> HistoryState {
        HistoryState {
            actions: self.actions@,
            current: self.current_action as int,
            max: self.max_action as int,
        }
    }
}

impl UndoHistory {
    /// A fresh log. The origin boundary goes in through
    /// `append_mark_action`, which moves the cursor past it; the cursor is
    /// then put back on the origin.
    pub fn new() -> (uh: Self)
        ensures
            uh@ == HistoryState::initial(),
            uh@.wf(),
    {
        let mut uh = UndoHistory { actions: Vec::new(), current_action: 0, max_action: 0 };
        uh.append_mark_action();
        uh.current_action -= 1;
        uh
    }

    /// Appends a boundary and moves the cursor on by one. This is the step
    /// that closes a log after an edit has been appended, and the one that
    /// puts the origin boundary into an empty log; called on a well-formed
    /// log it leaves two boundaries in a row.
    pub fn append_mark_action(&mut self)
        requires
            old(self)@.current < usize::MAX,
        ensures
            final(self)@ == old(self)@.append_mark(),
    {
        self.current_action += 1;
        let undo_action = UndoAction { action_type: ActionType::Mark, country: None };
        self.actions.push(undo_action);
    }

    /// Records an edit of kind `action_type` on the record `country`. The
    /// entries behind the cursor, which a redo could still have reached,
    /// are dropped first, so that `max` names the boundary under the
    /// cursor; then the cursor moves behind it, the edit goes in there and
    /// a boundary closes the log. Nothing is left to redo.
    pub fn append_action(&mut self, action_type: ActionType, country: Option<Country>)
        requires
            old(self)@.wf(),
            action_type != ActionType::Mark,
            country is Some,
        ensures
            final(self)@ == old(self)@.record(UndoAction { action_type, country }),
            final(self)@.wf(),
    {
        self.actions.truncate(self.current_action + 1);
        self.max_action = self.current_action;

        self.current_action = self.max_action + 1;
        let undo_action = UndoAction { action_type, country };
        self.actions.push(undo_action);
        // The log's length fits a `usize`, so the cursor can move on once more.
        assert(self.actions.len() == self.max_action + 2);

        self.append_mark_action();
        self.max_action = self.current_action;
    }

    /// Whether there is an edit to undo. In a well-formed log there is
    /// none exactly when the cursor stands where it stood in the fresh log.
    pub fn can_undo(&self) -> (res: bool)
        ensures
            res == (self@.current > 0 && self@.max > 0),
            self@.wf() ==> res == self@.can_undo(),
            self@.wf() ==> (!res <==> self@.current == HistoryState::initial().current),
    {
        self.current_action > 0 && self.max_action > 0
    }

    /// Whether there is an edit to redo. In a well-formed log there is
    /// none exactly when the cursor stands on the last boundary.
    pub fn can_redo(&self) -> (res: bool)
        ensures
            res == self@.can_redo(),
            self@.wf() ==> (!res <==> self@.current == self@.max),
    {
        self.max_action > self.current_action
    }

    /// Walks the cursor backward over boundaries until it meets an edit,
    /// then moves it once more, onto the boundary before that edit. Returns
    /// the index of the edit.
    pub fn step_back(&mut self) -> (at: usize)
        requires
            old(self)@.wf(),
            old(self)@.can_undo(),
        ensures
            at == old(self)@.current - 1,
            final(self)@ == old(self)@.step_back(),
            final(self)@.wf(),
    {
        while self.actions[self.current_action].action_type == ActionType::Mark
            invariant
                old(self)@.wf(),
                old(self)@.can_undo(),
                self@.actions == old(self)@.actions,
                self@.max == old(self)@.max,
                old(self)@.current - 1 <= self@.current <= old(self)@.current,
            decreases self@.current,
        {
            self.current_action -= 1;
        }
        let at = self.current_action;
        self.current_action -= 1;
        at
    }

    /// Walks the cursor forward over boundaries until it meets an edit, then
    /// moves it once more, onto the boundary behind that edit. Returns the
    /// index of the edit.
    pub fn step_forward(&mut self) -> (at: usize)
        requires
            old(self)@.wf(),
            old(self)@.can_redo(),
        ensures
            at == old(self)@.current + 1,
            final(self)@ == old(self)@.step_forward(),
            final(self)@.wf(),
    {
        while self.actions[self.current_action].action_type == ActionType::Mark
            invariant
                old(self)@.wf(),
                old(self)@.can_redo(),
                self@.actions == old(self)@.actions,
                self@.max == old(self)@.max,
                old(self)@.current <= self@.current <= old(self)@.current + 1,
            decreases old(self)@.max - self@.current,
        {
            self.current_action += 1;
        }
        let at = self.current_action;
        self.current_action += 1;
        at
    }

    /// Index of the boundary the log stands at.
    pub fn current_action(&self) -> (res: usize)
        ensures
            res == self@.current,
    {
        self.current_action
    }

    /// Index of the boundary behind the most recent edit.
    pub fn max_action(&self) -> (res: usize)
        ensures
            res == self@.max,
    {
        self.max_action
    }

    /// Number of entries in the log.
    pub fn len(&self) -> (res: usize)
        ensures
            res == self@.actions.len(),
    {
        self.actions.len()
    }

    /// The entry at `index`, if the log is that long.
    pub fn action(&self, index: usize) -> (res: Option<&UndoAction>)
        ensures
            index < self@.actions.len() ==> res == Some(&self@.actions[index as int]),
            index >= self@.actions.len() ==> res is None,
    {
        if index < self.actions.len() {
            Some(&self.actions[index])
        } else {
            None
        }
    }

    /// Checks the log's invariant at run time.
    pub fn is_well_formed(&self) -> (res: bool)
        ensures
            res == self@.wf(),
    {
        let n: usize = self.actions.len();
        if n == 0 || self.max_action != n - 1 || self.current_action > self.max_action
            || self.current_action % 2 != 0 || self.max_action % 2 != 0 {
            return false;
        }
        let mut i: usize = 0;
        while i < n
            invariant
                n == self@.actions.len(),
                i <= n,
                forall|j: int|
                    0 <= j < i ==> {
                        &&& (#[trigger] self@.actions[j]).well_formed()
                        &&& self@.actions[j].is_edit() <==> j % 2 == 1
                    },
            decreases n - i,
        {
            let entry = &self.actions[i];
            let is_edit = entry.action_type != ActionType::Mark;
            if is_edit != entry.country.is_some() || is_edit != (i % 2 == 1) {
                return false;
            }
            i += 1;
        }
        true
    }
}

} // verus!
