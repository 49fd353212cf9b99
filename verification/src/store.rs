//! The process-wide, write-once holder of the default settings.

use vstd::prelude::*;
use once_cell::sync::OnceCell;
use crate::error::{ShellError, ShellErrorView, reply_view};
use crate::settings::{Settings, SettingsView};

verus! {

/// `once_cell::sync::OnceCell`, a cell that is written at most once. What
/// a cell holds is known to the proofs through [`cell_contents`] alone.
#[verifier::external_type_specification]
#[verifier::external_body]
#[verifier::reject_recursive_types(T)]
pub struct ExOnceCell<T>(OnceCell<T>);

/// What a cell holds: nothing, or the one record that was written to it.
pub uninterp spec fn cell_contents(cell: OnceCell<Settings>) -> Option<SettingsView>;

/// `once_cell::sync::OnceCell::new`: the new cell is empty.
#[verifier::external_body]
fn cell_new() -> (cell: OnceCell<Settings>)
    ensures
        cell_contents(cell) is None,
{
    OnceCell::new()
}

/// `once_cell::sync::OnceCell::get`: a reference to the record that the cell
/// holds, or nothing where the cell is empty.
#[verifier::external_body]
fn cell_get(cell: &OnceCell<Settings>) -> (found: Option<&Settings>)
    ensures
        match cell_contents(*cell) {
            Some(held) => found is Some && found->0@ == held,
            None => found is None,
        },
{
    cell.get()
}

/// `once_cell::sync::OnceCell::set`: an empty cell takes the record and the
/// call succeeds; a full cell keeps what it holds and hands the record back.
/// The cell is borrowed mutably here, so that no other reference sees it
/// change.
#[verifier::external_body]
fn cell_set(cell: &mut OnceCell<Settings>, value: Settings) -> (done: Result<(), Settings>)
    ensures
        match cell_contents(*old(cell)) {
            None => done is Ok && cell_contents(*final(cell)) == Some(value@),
            Some(held) => {
                &&& done is Err
                &&& done->Err_0@ == value@
                &&& cell_contents(*final(cell)) == Some(held)
            },
        },
{
    cell.set(value)
}

/// What an attempt to publish `settings` leaves in a store that held `held`,
/// and the reply to the attempt.
pub open spec fn publish_outcome(held: Option<SettingsView>, settings: SettingsView) -> (
    Option<SettingsView>,
    Result<(), ShellErrorView>,
) {
    match held {
        None => (Some(settings), Ok(())),
        Some(_) => (held, Err(ShellErrorView::AlreadyInitialized)),
    }
}

/// The reply to a fetch from a store that holds `held`.
pub open spec fn fetch_outcome(held: Option<SettingsView>) -> Result<
    SettingsView,
    ShellErrorView,
> {
    match held {
        Some(settings) => Ok(settings),
        None => Err(ShellErrorView::NotInitialized),
    }
}

/// What a store that held `held` holds after one attempt to publish each of
/// `attempts`, in their order.
pub open spec fn after_attempts(held: Option<SettingsView>, attempts: Seq<SettingsView>) -> Option<
    SettingsView,
>
    decreases attempts.len(),
{
    if attempts.len() == 0 {
        held
    } else {
        after_attempts(publish_outcome(held, attempts[0]).0, attempts.drop_first())
    }
}

/// Holder of the default settings: empty at first, written at most once,
/// constant from then on.
pub struct SettingsStore {
    cell: OnceCell<Settings>,
}

impl SettingsStore {
    /// The published record, if there is one.
    pub closed spec fn published(&self) -> Option<SettingsView> {
        cell_contents(self.cell)
    }

    /// An empty store.
    pub fn new() -> (store: SettingsStore)
        ensures
            store.published() is None,
    {
        SettingsStore { cell: cell_new() }
    }

    /// Publishes `settings` if nothing was published before, and refuses
    /// with [`ShellError::AlreadyInitialized`] otherwise, leaving the store
    /// as it was.
    pub fn initialize(&mut self, settings: Settings) -> (done: Result<(), ShellError>)
        ensures
            (final(self).published(), reply_view(done)) == publish_outcome(
                old(self).published(),
                settings@,
            ),
    {
        match cell_set(&mut self.cell, settings) {
            Ok(()) => Ok(()),
            Err(_) => Err(ShellError::AlreadyInitialized),
        }
    }

    /// A copy of the published record, or [`ShellError::NotInitialized`]
    /// where nothing was published yet.
    pub fn fetch(&self) -> (found: Result<Settings, ShellError>)
        ensures
            reply_view(found) == fetch_outcome(self.published()),
    {
        match cell_get(&self.cell) {
            Some(settings) => Ok(settings.clone()),
            None => Err(ShellError::NotInitialized),
        }
    }
}

/// Once a record is published, the store holds it for good: whatever is
/// offered to it afterwards, it holds the same record.
pub proof fn lemma_published_record_stays(held: SettingsView, attempts: Seq<SettingsView>)
    ensures
        after_attempts(Some(held), attempts) == Some(held),
    decreases attempts.len(),
{
    if attempts.len() > 0 {
        lemma_published_record_stays(held, attempts.drop_first());
    }
}

/// The first publication wins: after `first` was published into an empty
/// store, every fetch replies with `first`, however many attempts to
/// publish something else lie in between.
pub proof fn lemma_fetch_replies_first_publication(first: SettingsView, later: Seq<SettingsView>)
    ensures
        publish_outcome(None, first).1 is Ok,
        fetch_outcome(after_attempts(publish_outcome(None, first).0, later)) == Ok::<
            SettingsView,
            ShellErrorView,
        >(first),
{
    lemma_published_record_stays(first, later);
}

/// Nothing can be fetched from a store into which nothing was published.
pub proof fn lemma_fetch_from_empty_store_is_refused()
    ensures
        fetch_outcome(None) == Err::<SettingsView, ShellErrorView>(
            ShellErrorView::NotInitialized,
        ),
{
}

} // verus!
