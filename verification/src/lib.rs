//! Linear undo/redo history for an ordered collection of country records.
//!
//! Every edit happens at the tail of the collection: a record is appended or
//! the last record is removed. The history log keeps one entry per edit,
//! separated by boundary marks, and a cursor that names the boundary the
//! collection currently stands at. An edit made after an undo discards the
//! entries that were undone: the log is cut behind the cursor before the
//! edit is recorded, so that it always describes the path that was taken
//! and nothing is left to redo.

pub mod action;
pub mod countries;
pub mod country;
pub mod history;
pub mod laws;
pub mod sync;

pub use action::{ActionType, UndoAction};
pub use countries::{CountriesState, CountriesWithUndoRedo, Replay};
pub use country::Country;
pub use history::{HistoryState, UndoHistory};
