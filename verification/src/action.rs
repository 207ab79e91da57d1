//! Entries of the history log.

use vstd::prelude::*;
use crate::country::Country;

verus! {

/// The kind of a log entry.
#[derive(Clone, Copy, Debug, PartialEq, Eq, Structural)]
pub enum ActionType {
    /// A boundary between two consecutive edits; carries no record.
    Mark,
    /// A record was appended to the collection.
    Insert,
    /// The last record was removed from the collection.
    Remove,
}

/// One entry of the log: its kind and, for an edit, a copy of the record
/// that was appended or removed.
#[derive(Debug, PartialEq, Eq)]
pub struct UndoAction {
    pub action_type: ActionType,
    pub country: Option<Country>,
}

impl UndoAction {
    /// The boundary entry.
    pub open spec fn mark() -> UndoAction {
        UndoAction { action_type: ActionType::Mark, country: None }
    }

    /// An entry is an edit when it is not a boundary.
    pub open spec fn is_edit(self) -> bool {
        self.action_type != ActionType::Mark
    }

    /// Edits carry a record, boundaries carry none.
    pub open spec fn well_formed(self) -> bool {
        self.is_edit() <==> self.country is Some
    }

    /// The collection after this edit has been applied to `countries`.
    /// Removing from an empty collection changes nothing.
    pub open spec fn apply(self, countries: Seq<Country>) -> Seq<Country> {
        match self.action_type {
            ActionType::Mark => countries,
            ActionType::Insert => countries.push(self.country->0),
            ActionType::Remove => if countries.len() > 0 {
                countries.drop_last()
            } else {
                countries
            },
        }
    }

    /// The collection after this edit has been reversed on `countries`:
    /// an insertion is reversed by dropping the last record, a removal by
    /// appending the removed record again.
    pub open spec fn revert(self, countries: Seq<Country>) -> Seq<Country> {
        match self.action_type {
            ActionType::Mark => countries,
            ActionType::Insert => if countries.len() > 0 {
                countries.drop_last()
            } else {
                countries
            },
            ActionType::Remove => countries.push(self.country->0),
        }
    }
}

} // verus!
