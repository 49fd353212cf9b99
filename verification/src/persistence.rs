//! Naming and bookkeeping for the artifacts that the shell persists.
//!
//! The key-value store itself belongs to the host. This module decides what
//! is asked of it and what its answers mean: the caller performs the request
//! that a function here returns, and hands the outcome back for the reply.

use vstd::prelude::*;
use crate::error::{ShellError, ShellErrorView, reply_view};

verus! {

/// Name of the one store that holds every artifact.
pub const STORE_NAME: &'static str = "store.json";

/// The artifacts that the shell persists: a closed set.
#[derive(Clone, Copy, Debug, PartialEq, Eq, Structural)]
pub enum Artifact {
    AccessToken,
    Code,
}

impl Artifact {
    /// The key under which the artifact lies in the store.
    pub open spec fn key_text(self) -> Seq<char> {
        match self {
            Artifact::AccessToken => "access_token"@,
            Artifact::Code => "code"@,
        }
    }

    /// The key under which the artifact lies in the store.
    pub fn key(&self) -> (name: &'static str)
        ensures
            name@ == self.key_text(),
    {
        match self {
            Artifact::AccessToken => "access_token",
            Artifact::Code => "code",
        }
    }
}

/// A request to put a text into the store.
#[derive(Debug, PartialEq, Eq)]
pub struct StoreWrite {
    pub store: &'static str,
    pub key: &'static str,
    pub value: String,
}

/// Mathematical value of a [`StoreWrite`].
pub struct StoreWriteView {
    pub store: Seq<char>,
    pub key: Seq<char>,
    pub value: Seq<char>,
}

impl View for StoreWrite {
    type V = StoreWriteView;

    open spec fn view(&self) -> StoreWriteView {
        StoreWriteView { store: self.store@, key: self.key@, value: self.value@ }
    }
}

/// A request to look a key up in the store.
#[derive(Clone, Copy, Debug, PartialEq, Eq)]
pub struct StoreRead {
    pub store: &'static str,
    pub key: &'static str,
}

/// Mathematical value of a [`StoreRead`].
pub struct StoreReadView {
    pub store: Seq<char>,
    pub key: Seq<char>,
}

impl View for StoreRead {
    type V = StoreReadView;

    open spec fn view(&self) -> StoreReadView {
        StoreReadView { store: self.store@, key: self.key@ }
    }
}

/// What the store answered to a [`StoreRead`].
#[derive(Debug, PartialEq, Eq)]
pub enum ReadOutcome {
    /// The key holds this text.
    Found(String),
    /// The key holds a value that is not a text.
    NotText,
    /// The key holds nothing.
    Missing,
    /// The store could not be read.
    Failed(String),
}

/// Mathematical value of a [`ReadOutcome`].
pub enum ReadOutcomeView {
    Found(Seq<char>),
    NotText,
    Missing,
    Failed(Seq<char>),
}

impl View for ReadOutcome {
    type V = ReadOutcomeView;

    open spec fn view(&self) -> ReadOutcomeView {
        match self {
            ReadOutcome::Found(text) => ReadOutcomeView::Found(text@),
            ReadOutcome::NotText => ReadOutcomeView::NotText,
            ReadOutcome::Missing => ReadOutcomeView::Missing,
            ReadOutcome::Failed(cause) => ReadOutcomeView::Failed(cause@),
        }
    }
}

/// What the store answered to a [`StoreWrite`].
#[derive(Debug, PartialEq, Eq)]
pub enum WriteOutcome {
    /// The value is in the store.
    Written,
    /// The store could not be written.
    Failed(String),
}

/// Mathematical value of a [`WriteOutcome`].
pub enum WriteOutcomeView {
    Written,
    Failed(Seq<char>),
}

impl View for WriteOutcome {
    type V = WriteOutcomeView;

    open spec fn view(&self) -> WriteOutcomeView {
        match self {
            WriteOutcome::Written => WriteOutcomeView::Written,
            WriteOutcome::Failed(cause) => WriteOutcomeView::Failed(cause@),
        }
    }
}

/// The write that saves `value` as `artifact`.
pub open spec fn write_for(artifact: Artifact, value: Seq<char>) -> StoreWriteView {
    StoreWriteView { store: STORE_NAME@, key: artifact.key_text(), value }
}

/// The read that loads `artifact`.
pub open spec fn read_for(artifact: Artifact) -> StoreReadView {
    StoreReadView { store: STORE_NAME@, key: artifact.key_text() }
}

/// The reply to a load of `artifact`, given what the store answered.
pub open spec fn load_reply_for(artifact: Artifact, outcome: ReadOutcomeView) -> Result<
    Seq<char>,
    ShellErrorView,
> {
    match outcome {
        ReadOutcomeView::Found(text) => Ok(text),
        ReadOutcomeView::NotText => Err(
            ShellErrorView::Serialization(artifact.key_text()),
        ),
        ReadOutcomeView::Missing => Err(ShellErrorView::MissingKey(artifact)),
        ReadOutcomeView::Failed(cause) => Err(ShellErrorView::PersistenceIo(cause)),
    }
}

/// The reply to a save, given what the store answered.
pub open spec fn save_reply_for(outcome: WriteOutcomeView) -> Result<(), ShellErrorView> {
    match outcome {
        WriteOutcomeView::Written => Ok(()),
        WriteOutcomeView::Failed(cause) => Err(ShellErrorView::PersistenceIo(cause)),
    }
}

/// Says what to write so that `value` is saved as `artifact`. The value is
/// passed on as it is: nothing in it is checked or changed.
pub fn save_request(artifact: Artifact, value: String) -> (write: StoreWrite)
    ensures
        write@ == write_for(artifact, value@),
{
    StoreWrite { store: STORE_NAME, key: artifact.key(), value }
}

/// Says what to read so that `artifact` is loaded.
pub fn load_request(artifact: Artifact) -> (read: StoreRead)
    ensures
        read@ == read_for(artifact),
{
    StoreRead { store: STORE_NAME, key: artifact.key() }
}

/// Turns the store's answer to a write into the reply to the save.
pub fn save_reply(outcome: WriteOutcome) -> (reply: Result<(), ShellError>)
    ensures
        reply_view(reply) == save_reply_for(outcome@),
{
    match outcome {
        WriteOutcome::Written => Ok(()),
        WriteOutcome::Failed(cause) => Err(ShellError::PersistenceIo(cause)),
    }
}

/// Turns the store's answer to a read into the reply to the load of
/// `artifact`.
pub fn load_reply(artifact: Artifact, outcome: ReadOutcome) -> (reply: Result<String, ShellError>)
    ensures
        reply_view(reply) == load_reply_for(artifact, outcome@),
{
    match outcome {
        ReadOutcome::Found(text) => Ok(text),
        ReadOutcome::NotText => Err(ShellError::Serialization(String::from_str(artifact.key()))),
        ReadOutcome::Missing => Err(ShellError::MissingKey(artifact)),
        ReadOutcome::Failed(cause) => Err(ShellError::PersistenceIo(cause)),
    }
}

/// What a key of a store holds: a text, or something that is no text.
pub enum StoredValue {
    Text(Seq<char>),
    Other,
}

/// The contents of the host's key-value stores: what lies under each pair of
/// a store name and a key.
pub type Medium = Map<(Seq<char>, Seq<char>), StoredValue>;

/// The medium after `write` was carried out on it.
pub open spec fn medium_after(medium: Medium, write: StoreWriteView) -> Medium {
    medium.insert((write.store, write.key), StoredValue::Text(write.value))
}

/// What the medium answers to `read`, where reading does not fail.
pub open spec fn medium_answer(medium: Medium, read: StoreReadView) -> ReadOutcomeView {
    if medium.dom().contains((read.store, read.key)) {
        match medium[(read.store, read.key)] {
            StoredValue::Text(text) => ReadOutcomeView::Found(text),
            StoredValue::Other => ReadOutcomeView::NotText,
        }
    } else {
        ReadOutcomeView::Missing
    }
}

/// No two artifacts share a key.
pub proof fn lemma_keys_are_distinct(first: Artifact, second: Artifact)
    ensures
        first.key_text() == second.key_text() <==> first == second,
{
    reveal_strlit("access_token");
    reveal_strlit("code");
    assert("access_token"@.len() == 12);
    assert("code"@.len() == 4);
}

/// Round trip: on any medium, a load that follows a save of the same
/// artifact replies with the text that was saved, whatever was there
/// before.
pub proof fn lemma_load_after_save(medium: Medium, artifact: Artifact, value: Seq<char>)
    ensures
        load_reply_for(
            artifact,
            medium_answer(medium_after(medium, write_for(artifact, value)), read_for(artifact)),
        ) == Ok::<Seq<char>, ShellErrorView>(value),
{
}

/// A load of an artifact under whose key the medium holds nothing replies
/// that the key is missing.
pub proof fn lemma_load_without_save(medium: Medium, artifact: Artifact)
    requires
        !medium.dom().contains((STORE_NAME@, artifact.key_text())),
    ensures
        load_reply_for(artifact, medium_answer(medium, read_for(artifact))) == Err::<
            Seq<char>,
            ShellErrorView,
        >(ShellErrorView::MissingKey(artifact)),
{
}

/// A save of one artifact leaves what a load of another artifact replies
/// as it was.
pub proof fn lemma_save_keeps_other_artifact(
    medium: Medium,
    saved: Artifact,
    value: Seq<char>,
    other: Artifact,
)
    requires
        saved != other,
    ensures
        medium_answer(medium_after(medium, write_for(saved, value)), read_for(other))
            == medium_answer(medium, read_for(other)),
{
    lemma_keys_are_distinct(saved, other);
}

} // verus!
