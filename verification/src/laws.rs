//! Laws of undo and redo, stated over the mathematical states that the
//! contracts of the collection speak of.

use vstd::prelude::*;
use crate::action::UndoAction;
use crate::countries::CountriesState;
use crate::country::Country;
use crate::history::replay;

verus! {

/// One edit of the collection.
pub enum Edit {
    /// Append the record.
    Add(Country),
    /// Remove the last record.
    Remove,
}

impl CountriesState {
    /// The state after one edit.
    pub open spec fn edit(self, e: Edit) -> CountriesState {
        match e {
            Edit::Add(country) => self.add_country(country),
            Edit::Remove => self.remove_country(),
        }
    }

    /// The state after the edits of `es` have been made, first one first.
    pub open spec fn edits(self, es: Seq<Edit>) -> CountriesState
        decreases es.len(),
    {
        if es.len() == 0 {
            self
        } else {
            self.edits(es.drop_last()).edit(es.last())
        }
    }

    /// Every removal among `es` finds a record to remove, so that each edit
    /// of `es` is recorded in the log.
    pub open spec fn takes_effect(self, es: Seq<Edit>) -> bool
        decreases es.len(),
    {
        es.len() > 0 ==> {
            &&& self.takes_effect(es.drop_last())
            &&& es.last() is Remove ==> self.edits(es.drop_last()).countries.len() > 0
        }
    }

    /// The state after `n` undos.
    pub open spec fn undo_times(self, n: nat) -> CountriesState
        decreases n,
    {
        if n == 0 {
            self
        } else {
            self.undo().undo_times((n - 1) as nat)
        }
    }

    /// The state after `n` redos.
    pub open spec fn redo_times(self, n: nat) -> CountriesState
        decreases n,
    {
        if n == 0 {
            self
        } else {
            self.redo().redo_times((n - 1) as nat)
        }
    }
}

/// The fresh state is well formed, and every operation leaves a well-formed
/// state well formed.
pub proof fn lemma_operations_keep_wf(s: CountriesState, country: Country)
    requires
        s.wf(),
    ensures
        CountriesState::initial().wf(),
        s.add_country(country).wf(),
        s.remove_country().wf(),
        s.undo().wf(),
        s.redo().wf(),
{
}

/// Undo after `add_country` takes the added record off the tail again: the
/// collection is what it was before the record was added.
pub proof fn lemma_undo_after_add(s: CountriesState, country: Country)
    requires
        s.wf(),
    ensures
        s.add_country(country).undo().countries == s.countries,
{
}

/// Undo after a `remove_country` that removed a record puts that record
/// back on the tail: the collection is what it was before the removal.
pub proof fn lemma_undo_after_remove(s: CountriesState)
    requires
        s.wf(),
        s.countries.len() > 0,
    ensures
        s.remove_country().undo().countries == s.countries,
{
}

/// An edit that takes effect leaves a well-formed state with the cursor on
/// the last boundary, two entries behind where it stood; the log is as it
/// was up to the old cursor; undoing the edit gives the old collection
/// back.
proof fn lemma_edit_step(s: CountriesState, e: Edit)
    requires
        s.wf(),
        e is Remove ==> s.countries.len() > 0,
    ensures
        s.edit(e).wf(),
        s.edit(e).history.current == s.history.current + 2,
        s.edit(e).history.max == s.edit(e).history.current,
        s.edit(e).history.actions.take(s.history.current + 1) == s.history.actions.take(
            s.history.current + 1,
        ),
        s.edit(e).history.undo_target().revert(s.edit(e).countries) == s.countries,
{
}

/// After edits that all take effect the state is well formed, the cursor
/// has moved on by two entries for each edit, and the log agrees with the
/// log after the first `m` edits up to where the cursor stood then.
proof fn lemma_edits_extend_log(s: CountriesState, es: Seq<Edit>, m: int)
    requires
        s.wf(),
        s.takes_effect(es),
        0 <= m <= es.len(),
    ensures
        s.edits(es).wf(),
        s.edits(es).history.current == s.history.current + 2 * es.len(),
        s.takes_effect(es.take(m)),
        s.edits(es).history.actions.take(s.history.current + 2 * m + 1) == s.edits(
            es.take(m),
        ).history.actions.take(s.history.current + 2 * m + 1),
    decreases es.len(),
{
    if es.len() > 0 {
        let front = es.drop_last();
        lemma_edits_extend_log(s, front, front.len() as int);
        if m == es.len() {
            assert(es.take(m) =~= es);
        } else {
            // The last edit left the entries up to the cursor as they were.
            lemma_edits_extend_log(s, front, m);
            assert(front.take(m) =~= es.take(m));
        }
    }
}

/// A state that has the log of `s.edits(es)` with the cursor where it stood
/// after the first `m` edits, and the collection as it was then, goes back
/// through the earlier collections when it is undone.
proof fn lemma_undo_walks_back(
    s: CountriesState,
    es: Seq<Edit>,
    t: CountriesState,
    m: int,
    k: nat,
)
    requires
        s.wf(),
        s.takes_effect(es),
        0 <= k <= m <= es.len(),
        t.history.actions == s.edits(es).history.actions,
        t.history.max == s.edits(es).history.max,
        t.history.current == s.history.current + 2 * m,
        t.countries == s.edits(es.take(m)).countries,
    ensures
        t.undo_times(k).countries == s.edits(es.take(m - k)).countries,
    decreases k,
{
    if k > 0 {
        let before = s.edits(es.take(m - 1));
        let e = es[m - 1];
        lemma_edits_extend_log(s, es, m);
        assert(es.take(m).drop_last() =~= es.take(m - 1));
        lemma_edits_extend_log(s, es.take(m - 1), m - 1);
        lemma_edit_step(before, e);
        // The edit behind the cursor of `t` is the one that `e` recorded.
        let at = t.history.current - 1;
        assert(t.history.actions.take(at + 2)[at] == before.edit(e).history.actions.take(
            at + 2,
        )[at]);
        lemma_undo_walks_back(s, es, t.undo(), m - 1, (k - 1) as nat);
    }
}

/// After any edits that all take effect, each undo reverses the latest
/// edit that is not yet undone: `k` undos give the collection as it was
/// after all but the last `k` edits, and one undo for each edit gives the
/// collection as it was before the first.
pub proof fn lemma_undo_retraces_edits(s: CountriesState, es: Seq<Edit>, k: nat)
    requires
        s.wf(),
        s.takes_effect(es),
        k <= es.len(),
    ensures
        s.edits(es).undo_times(k).countries == s.edits(es.take(es.len() - k)).countries,
        s.edits(es).undo_times(es.len()).countries == s.countries,
{
    let n = es.len() as int;
    assert(es.take(n) =~= es);
    if n > 0 {
        lemma_edits_extend_log(s, es, n);
        lemma_undo_walks_back(s, es, s.edits(es), n, k);
        lemma_undo_walks_back(s, es, s.edits(es), n, es.len());
    }
}

/// Redo after undo gives the state back, the collection and the log, in
/// every state that is in step with its log and has an edit to undo.
pub proof fn lemma_redo_after_undo(s: CountriesState)
    requires
        s.wf(),
        s.in_sync(),
        s.history.can_undo(),
    ensures
        s.undo().redo() == s,
{
    let h = s.history;
    // The boundary under the cursor describes no change, so the collection
    // is the edit behind the cursor applied to what the log described
    // before it.
    assert(replay(h.actions, h.current + 1) == replay(h.actions, h.current));
    assert(s.undo().redo().countries =~= s.countries);
}

/// Undo after redo gives the state back, the collection and the log, in
/// every state that is in step with its log and has an edit to redo.
pub proof fn lemma_undo_after_redo(s: CountriesState)
    requires
        s.wf(),
        s.in_sync(),
        s.history.can_redo(),
    ensures
        s.redo().undo() == s,
{
    assert(s.redo().undo().countries =~= s.countries);
}

/// An edit leaves nothing to redo: however many redos follow it, the state
/// stays as the edit left it. The log it leaves holds the entries up to the
/// old cursor, the edit and a closing boundary, and nothing else: what
/// could be redone before is gone. The one edit that is set aside is a
/// removal that finds the collection empty while there is something to
/// redo: it changes nothing.
pub proof fn lemma_edit_discards_redo(s: CountriesState, e: Edit, n: nat)
    requires
        s.wf(),
        e is Remove && s.countries.len() == 0 ==> !s.history.can_redo(),
    ensures
        !s.edit(e).history.can_redo(),
        s.edit(e).redo_times(n) == s.edit(e),
        e is Add || s.countries.len() > 0 ==> s.edit(e).history.actions
            == s.history.actions.take(s.history.current + 1).push(
            s.edit(e).history.undo_target(),
        ).push(UndoAction::mark()),
    decreases n,
{
    if n > 0 {
        lemma_edit_discards_redo(s, e, (n - 1) as nat);
    }
}

} // verus!
