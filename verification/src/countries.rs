//! The collection of countries together with its history.

use vstd::prelude::*;
use crate::action::{ActionType, UndoAction};
use crate::country::Country;
use crate::history::{replay, HistoryState, UndoHistory};
use crate::sync::{lemma_edit_keeps_in_sync, lemma_initial_in_sync, lemma_replay_keeps_in_sync};

verus! {

/// What an undo or a redo did.
#[derive(Clone, Copy, Debug, PartialEq, Eq, Structural)]
pub enum Replay {
    /// There was no edit to undo or redo; nothing changed.
    Nothing,
    /// An insertion was undone or redone.
    Insert,
    /// A removal was undone or redone.
    Remove,
}

impl Replay {
    /// The outcome that stands for replaying `edit`.
    pub open spec fn of(edit: UndoAction) -> Replay {
        match edit.action_type {
            ActionType::Mark => Replay::Nothing,
            ActionType::Insert => Replay::Insert,
            ActionType::Remove => Replay::Remove,
        }
    }
}

/// What a collection with history holds, as mathematical values.
pub struct CountriesState {
    /// The live collection, first record first.
    pub countries: Seq<Country>,
    /// The history log.
    pub history: HistoryState,
}

impl CountriesState {
    /// The empty collection with a fresh log.
    pub open spec fn initial() -> CountriesState {
        CountriesState { countries: Seq::empty(), history: HistoryState::initial() }
    }

    /// The log is well formed.
    pub open spec fn wf(self) -> bool {
        self.history.wf()
    }

    /// The collection is in step with its log: the log is truthful and the
    /// collection is the one that the log describes up to its cursor.
    pub open spec fn in_sync(self) -> bool {
        &&& self.history.truthful()
        &&& self.countries == replay(self.history.actions, self.history.current + 1)
    }

    /// The state after `country` has been appended.
    pub open spec fn add_country(self, country: Country) -> CountriesState {
        CountriesState {
            countries: self.countries.push(country),
            history: self.history.record(
                UndoAction { action_type: ActionType::Insert, country: Some(country) },
            ),
        }
    }

    /// The state after the last record has been removed; an empty collection
    /// stays as it is, and so does its log, with what it holds to redo.
    pub open spec fn remove_country(self) -> CountriesState {
        if self.countries.len() > 0 {
            CountriesState {
                countries: self.countries.drop_last(),
                history: self.history.record(
                    UndoAction {
                        action_type: ActionType::Remove,
                        country: Some(self.countries.last()),
                    },
                ),
            }
        } else {
            self
        }
    }

    /// The state after one undo: the edit behind the cursor is reversed and
    /// the cursor moves to the boundary before it. With no edit behind the
    /// cursor nothing changes.
    pub open spec fn undo(self) -> CountriesState {
        if self.history.can_undo() {
            CountriesState {
                countries: self.history.undo_target().revert(self.countries),
                history: self.history.step_back(),
            }
        } else {
            self
        }
    }

    /// The state after one redo: the edit ahead of the cursor is applied
    /// again and the cursor moves to the boundary behind it. With no edit
    /// ahead of the cursor nothing changes.
    pub open spec fn redo(self) -> CountriesState {
        if self.history.can_redo() {
            CountriesState {
                countries: self.history.redo_target().apply(self.countries),
                history: self.history.step_forward(),
            }
        } else {
            self
        }
    }

    /// What an undo reports in this state.
    pub open spec fn undo_outcome(self) -> Replay {
        if self.history.can_undo() {
            Replay::of(self.history.undo_target())
        } else {
            Replay::Nothing
        }
    }

    /// What a redo reports in this state.
    pub open spec fn redo_outcome(self) -> Replay {
        if self.history.can_redo() {
            Replay::of(self.history.redo_target())
        } else {
            Replay::Nothing
        }
    }
}

/// An ordered collection of countries that is edited at its tail only and
/// remembers its edits, so that they can be undone and redone.
pub struct CountriesWithUndoRedo {
    countries: Vec<Country>,
    undo_history: UndoHistory,
}

impl View for CountriesWithUndoRedo {
    type V = CountriesState;

    closed spec fn view(&self) -> CountriesState {
        CountriesState { countries: self.countries@, history: self.undo_history@ }
    }
}

impl CountriesWithUndoRedo {
    /// The empty collection with a fresh log.
    pub fn new() -> (cu: Self)
        ensures
            cu@ == CountriesState::initial(),
            cu@.wf(),
            cu@.in_sync(),
    {
        let countries = Vec::new();
        let undo_history = UndoHistory::new();
        proof {
            lemma_initial_in_sync();
        }
        Self { countries, undo_history }
    }

    /// Appends `country`, after recording the insertion in the log. What
    /// could be redone before can no longer be.
    pub fn add_country(&mut self, country: Country)
        requires
            old(self)@.wf(),
        ensures
            final(self)@ == old(self)@.add_country(country),
            final(self)@.wf(),
            old(self)@.in_sync() ==> final(self)@.in_sync(),
    {
        proof {
            if old(self)@.in_sync() {
                lemma_edit_keeps_in_sync(old(self)@, country);
            }
        }
        self.undo_history.append_action(ActionType::Insert, Some(country.clone()));
        self.countries.push(country);
    }

    /// Removes the last record and records the removal in the log; what
    /// could be redone before can no longer be. On an empty collection
    /// nothing happens.
    pub fn remove_country(&mut self)
        requires
            old(self)@.wf(),
        ensures
            final(self)@ == old(self)@.remove_country(),
            final(self)@.wf(),
            old(self)@.in_sync() ==> final(self)@.in_sync(),
    {
        proof {
            if old(self)@.in_sync() && old(self)@.countries.len() > 0 {
                lemma_edit_keeps_in_sync(old(self)@, old(self)@.countries.last());
            }
        }
        if self.countries.len() > 0 {
            let c = self.countries.pop();
            self.undo_history.append_action(ActionType::Remove, c);
        }
    }

    /// Reverses the edit behind the cursor: an insertion by dropping the
    /// last record, a removal by appending the removed record again. Reports
    /// which kind of edit was reversed, or that there was none.
    pub fn undo(&mut self) -> (res: Replay)
        requires
            old(self)@.wf(),
        ensures
            final(self)@ == old(self)@.undo(),
            res == old(self)@.undo_outcome(),
            final(self)@.wf(),
            old(self)@.in_sync() ==> final(self)@.in_sync(),
    {
        proof {
            if old(self)@.in_sync() {
                lemma_replay_keeps_in_sync(old(self)@);
            }
        }
        if self.undo_history.can_undo() {
            let at = self.undo_history.step_back();
            let action = self.undo_history.action(at).unwrap();
            if action.action_type == ActionType::Insert {
                self.countries.pop();
                Replay::Insert
            } else {
                let c = action.country.clone().unwrap();
                self.countries.push(c);
                Replay::Remove
            }
        } else {
            Replay::Nothing
        }
    }

    /// Applies the edit ahead of the cursor again: an insertion by appending
    /// the recorded record, a removal by dropping the last record. Reports
    /// which kind of edit was applied, or that there was none.
    pub fn redo(&mut self) -> (res: Replay)
        requires
            old(self)@.wf(),
        ensures
            final(self)@ == old(self)@.redo(),
            res == old(self)@.redo_outcome(),
            final(self)@.wf(),
            old(self)@.in_sync() ==> final(self)@.in_sync(),
    {
        proof {
            if old(self)@.in_sync() {
                lemma_replay_keeps_in_sync(old(self)@);
            }
        }
        if self.undo_history.can_redo() {
            let at = self.undo_history.step_forward();
            let action = self.undo_history.action(at).unwrap();
            if action.action_type == ActionType::Insert {
                let c = action.country.clone().unwrap();
                self.countries.push(c);
                Replay::Insert
            } else {
                self.countries.pop();
                Replay::Remove
            }
        } else {
            Replay::Nothing
        }
    }

    /// The live collection, first record first.
    pub fn countries(&self) -> (res: &Vec<Country>)
        ensures
            res@ == self@.countries,
    {
        &self.countries
    }

    /// The history log.
    pub fn undo_history(&self) -> (res: &UndoHistory)
        ensures
            res@ == self@.history,
    {
        &self.undo_history
    }

    /// Checks the log's invariant at run time.
    pub fn is_well_formed(&self) -> (res: bool)
        ensures
            res == self@.wf(),
    {
        self.undo_history.is_well_formed()
    }
}

} // verus!
