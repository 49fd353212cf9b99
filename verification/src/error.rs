//! The kinds of failure that the shell reports, and the text of each.

use vstd::prelude::*;
use crate::persistence::Artifact;

verus! {

/// A failure of the shell. The user interface receives it as a text, see
/// [`ShellError::message`].
#[derive(Debug, PartialEq, Eq)]
pub enum ShellError {
    /// The settings resource is missing or malformed.
    ConfigLoad(String),
    /// The settings were asked for before they were published.
    NotInitialized,
    /// The settings were published a second time.
    AlreadyInitialized,
    /// The key-value store could not be read or written.
    PersistenceIo(String),
    /// The artifact has never been written.
    MissingKey(Artifact),
    /// The redirect listener could not take a loopback port.
    Bind(String),
    /// A stored or transmitted value could not be encoded or decoded.
    Serialization(String),
    /// The host runtime failed, or reported its work out of order.
    Host(String),
}

/// Mathematical value of a [`ShellError`].
pub enum ShellErrorView {
    ConfigLoad(Seq<char>),
    NotInitialized,
    AlreadyInitialized,
    PersistenceIo(Seq<char>),
    MissingKey(Artifact),
    Bind(Seq<char>),
    Serialization(Seq<char>),
    Host(Seq<char>),
}

impl View for ShellError {
    type V = ShellErrorView;

    open spec fn view(&self) -> ShellErrorView {
        match self {
            ShellError::ConfigLoad(detail) => ShellErrorView::ConfigLoad(detail@),
            ShellError::NotInitialized => ShellErrorView::NotInitialized,
            ShellError::AlreadyInitialized => ShellErrorView::AlreadyInitialized,
            ShellError::PersistenceIo(detail) => ShellErrorView::PersistenceIo(detail@),
            ShellError::MissingKey(artifact) => ShellErrorView::MissingKey(*artifact),
            ShellError::Bind(detail) => ShellErrorView::Bind(detail@),
            ShellError::Serialization(detail) => ShellErrorView::Serialization(detail@),
            ShellError::Host(detail) => ShellErrorView::Host(detail@),
        }
    }
}

impl ShellErrorView {
    /// The text under which the failure reaches the user interface.
    ///
    /// Failures of the settings resource, of the listener and of the host
    /// carry the text of their cause unchanged. The three failures of the
    /// persistence layer each begin with a prefix of their own.
    pub open spec fn message(self) -> Seq<char> {
        match self {
            ShellErrorView::ConfigLoad(detail) => detail,
            ShellErrorView::NotInitialized => "Settings not initialized"@,
            ShellErrorView::AlreadyInitialized => "Failed to set settings"@,
            ShellErrorView::PersistenceIo(detail) => "storage failure: "@ + detail,
            ShellErrorView::MissingKey(artifact) => "missing key: "@ + artifact.key_text(),
            ShellErrorView::Bind(detail) => detail,
            ShellErrorView::Serialization(detail) => "serialization failure: "@ + detail,
            ShellErrorView::Host(detail) => detail,
        }
    }
}

impl ShellError {
    /// The text under which the failure reaches the user interface.
    pub fn message(&self) -> (text: String)
        ensures
            text@ == self@.message(),
    {
        match self {
            ShellError::ConfigLoad(detail) => detail.clone(),
            ShellError::NotInitialized => String::from_str("Settings not initialized"),
            ShellError::AlreadyInitialized => String::from_str("Failed to set settings"),
            ShellError::PersistenceIo(detail) => {
                String::from_str("storage failure: ").concat(detail.as_str())
            },
            ShellError::MissingKey(artifact) => {
                String::from_str("missing key: ").concat(artifact.key())
            },
            ShellError::Bind(detail) => detail.clone(),
            ShellError::Serialization(detail) => {
                String::from_str("serialization failure: ").concat(detail.as_str())
            },
            ShellError::Host(detail) => detail.clone(),
        }
    }
}

/// Mathematical value of a reply inside the shell: the value of what was
/// asked for, or the value of the failure.
pub open spec fn reply_view<T: View>(reply: Result<T, ShellError>) -> Result<T::V, ShellErrorView> {
    match reply {
        Ok(value) => Ok(value@),
        Err(error) => Err(error@),
    }
}

/// Mathematical value of a reply as the user interface receives it: the
/// value of what was asked for, or the text of the failure.
pub open spec fn wire_view<T: View>(reply: Result<T, String>) -> Result<T::V, Seq<char>> {
    match reply {
        Ok(value) => Ok(value@),
        Err(text) => Err(text@),
    }
}

/// What the user interface receives for a reply: a failure becomes its
/// text, a success stays as it is.
pub open spec fn on_wire<V>(reply: Result<V, ShellErrorView>) -> Result<V, Seq<char>> {
    match reply {
        Ok(value) => Ok(value),
        Err(error) => Err(error.message()),
    }
}

/// Puts a reply into the form in which the user interface receives it.
pub fn into_wire<T: View>(reply: Result<T, ShellError>) -> (sent: Result<T, String>)
    ensures
        wire_view(sent) == on_wire(reply_view(reply)),
{
    match reply {
        Ok(value) => Ok(value),
        Err(error) => Err(error.message()),
    }
}

/// A missing key is told from every failure to read or to decode, by the
/// text alone: whatever the cause of the other failure says, the two texts
/// differ.
pub proof fn lemma_missing_key_is_told_apart(artifact: Artifact, detail: Seq<char>)
    ensures
        ShellErrorView::MissingKey(artifact).message() != ShellErrorView::PersistenceIo(
            detail,
        ).message(),
        ShellErrorView::MissingKey(artifact).message() != ShellErrorView::Serialization(
            detail,
        ).message(),
{
    reveal_strlit("missing key: ");
    reveal_strlit("storage failure: ");
    reveal_strlit("serialization failure: ");
    let missing = ShellErrorView::MissingKey(artifact).message();
    let storage = ShellErrorView::PersistenceIo(detail).message();
    let serialization = ShellErrorView::Serialization(detail).message();
    assert(missing[0] == 'm');
    assert(storage[0] == 's');
    assert(serialization[0] == 's');
}

} // verus!
