//! The commands that the user interface may invoke: a closed set, each with
//! a name of its own.
//!
//! A command that needs the host is split in two. The first half says what
//! the host has to do; the second half takes what the host answered and
//! gives the reply. A failure reaches the user interface as a text.

use vstd::prelude::*;
use crate::error::{into_wire, on_wire, wire_view};
use crate::oauth::{bind_view, start_reply, start_reply_for};
use crate::persistence::{
    load_reply, load_reply_for, load_request, read_for, save_reply, save_reply_for, save_request,
    write_for, Artifact, ReadOutcome, StoreRead, StoreWrite, WriteOutcome,
};
use crate::settings::Settings;
use crate::store::{fetch_outcome, SettingsStore};

verus! {

/// The commands of the shell.
#[derive(Clone, Copy, Debug, PartialEq, Eq, Structural)]
pub enum Command {
    FetchDefaultSettings,
    StartServer,
    SaveAccessToken,
    LoadAccessToken,
    SaveCode,
    LoadCode,
    Greet,
    TestCommand,
}

impl Command {
    /// The name by which the user interface invokes the command.
    pub open spec fn name_text(self) -> Seq<char> {
        match self {
            Command::FetchDefaultSettings => "fetch_default_settings"@,
            Command::StartServer => "start_server"@,
            Command::SaveAccessToken => "save_access_token"@,
            Command::LoadAccessToken => "load_access_token"@,
            Command::SaveCode => "save_code"@,
            Command::LoadCode => "load_code"@,
            Command::Greet => "greet"@,
            Command::TestCommand => "test_command"@,
        }
    }

    /// The command that `name` invokes, if it invokes one.
    pub open spec fn named(name: Seq<char>) -> Option<Command> {
        if name == Command::FetchDefaultSettings.name_text() {
            Some(Command::FetchDefaultSettings)
        } else if name == Command::StartServer.name_text() {
            Some(Command::StartServer)
        } else if name == Command::SaveAccessToken.name_text() {
            Some(Command::SaveAccessToken)
        } else if name == Command::LoadAccessToken.name_text() {
            Some(Command::LoadAccessToken)
        } else if name == Command::SaveCode.name_text() {
            Some(Command::SaveCode)
        } else if name == Command::LoadCode.name_text() {
            Some(Command::LoadCode)
        } else if name == Command::Greet.name_text() {
            Some(Command::Greet)
        } else if name == Command::TestCommand.name_text() {
            Some(Command::TestCommand)
        } else {
            None
        }
    }

    /// The name by which the user interface invokes the command.
    pub fn name(&self) -> (name: &'static str)
        ensures
            name@ == self.name_text(),
    {
        match self {
            Command::FetchDefaultSettings => "fetch_default_settings",
            Command::StartServer => "start_server",
            Command::SaveAccessToken => "save_access_token",
            Command::LoadAccessToken => "load_access_token",
            Command::SaveCode => "save_code",
            Command::LoadCode => "load_code",
            Command::Greet => "greet",
            Command::TestCommand => "test_command",
        }
    }

    /// Looks a command up by its name. A name that belongs to no command
    /// gives nothing: the set is closed.
    pub fn from_name(name: &str) -> (found: Option<Command>)
        ensures
            found == Command::named(name@),
            forall|command: Command| found == Some(command) <==> name@ == command.name_text(),
    {
        proof {
            assert forall|command: Command|
                Command::named(name@) == Some(command) <==> name@ == command.name_text() by {
                lemma_lookup_inverts_naming(name@, command);
            }
        }
        if same_text(name, Command::FetchDefaultSettings.name()) {
            Some(Command::FetchDefaultSettings)
        } else if same_text(name, Command::StartServer.name()) {
            Some(Command::StartServer)
        } else if same_text(name, Command::SaveAccessToken.name()) {
            Some(Command::SaveAccessToken)
        } else if same_text(name, Command::LoadAccessToken.name()) {
            Some(Command::LoadAccessToken)
        } else if same_text(name, Command::SaveCode.name()) {
            Some(Command::SaveCode)
        } else if same_text(name, Command::LoadCode.name()) {
            Some(Command::LoadCode)
        } else if same_text(name, Command::Greet.name()) {
            Some(Command::Greet)
        } else if same_text(name, Command::TestCommand.name()) {
            Some(Command::TestCommand)
        } else {
            None
        }
    }
}

impl Command {
    /// The artifact that the command saves, if it saves one.
    pub open spec fn saved_artifact(self) -> Option<Artifact> {
        match self {
            Command::SaveAccessToken => Some(Artifact::AccessToken),
            Command::SaveCode => Some(Artifact::Code),
            _ => None,
        }
    }

    /// The artifact that the command loads, if it loads one.
    pub open spec fn loaded_artifact(self) -> Option<Artifact> {
        match self {
            Command::LoadAccessToken => Some(Artifact::AccessToken),
            Command::LoadCode => Some(Artifact::Code),
            _ => None,
        }
    }
}

impl Artifact {
    /// The command that saves the artifact.
    pub open spec fn save_command(self) -> Command {
        match self {
            Artifact::AccessToken => Command::SaveAccessToken,
            Artifact::Code => Command::SaveCode,
        }
    }

    /// The command that loads the artifact.
    pub open spec fn load_command(self) -> Command {
        match self {
            Artifact::AccessToken => Command::LoadAccessToken,
            Artifact::Code => Command::LoadCode,
        }
    }
}

/// Whether two texts are the same.
fn same_text(left: &str, right: &str) -> (same: bool)
    ensures
        same == (left@ == right@),
{
    left.to_owned() == right.to_owned()
}

/// No two commands share a name.
pub proof fn lemma_names_are_unique(first: Command, second: Command)
    ensures
        first.name_text() == second.name_text() <==> first == second,
{
    reveal_strlit("fetch_default_settings");
    reveal_strlit("start_server");
    reveal_strlit("save_access_token");
    reveal_strlit("load_access_token");
    reveal_strlit("save_code");
    reveal_strlit("load_code");
    reveal_strlit("greet");
    reveal_strlit("test_command");
    // Two names of one length differ in their first letter.
    assert("fetch_default_settings"@.len() == 22);
    assert("greet"@.len() == 5);
    assert("start_server"@.len() == 12 && "start_server"@[0] == 's');
    assert("test_command"@.len() == 12 && "test_command"@[0] == 't');
    assert("save_access_token"@.len() == 17 && "save_access_token"@[0] == 's');
    assert("load_access_token"@.len() == 17 && "load_access_token"@[0] == 'l');
    assert("save_code"@.len() == 9 && "save_code"@[0] == 's');
    assert("load_code"@.len() == 9 && "load_code"@[0] == 'l');
}

/// Looking a name up undoes naming: the name of a command finds that
/// command, and a name that finds a command is the name of that command.
pub proof fn lemma_lookup_inverts_naming(name: Seq<char>, command: Command)
    ensures
        Command::named(command.name_text()) == Some(command),
        Command::named(name) == Some(command) <==> name == command.name_text(),
{
    lemma_names_are_unique(command, Command::FetchDefaultSettings);
    lemma_names_are_unique(command, Command::StartServer);
    lemma_names_are_unique(command, Command::SaveAccessToken);
    lemma_names_are_unique(command, Command::LoadAccessToken);
    lemma_names_are_unique(command, Command::SaveCode);
    lemma_names_are_unique(command, Command::LoadCode);
    lemma_names_are_unique(command, Command::Greet);
    lemma_names_are_unique(command, Command::TestCommand);
}

/// Each artifact has one command that saves it and one that loads it, and
/// no command does both.
pub proof fn lemma_one_save_and_one_load_per_artifact(artifact: Artifact, command: Command)
    ensures
        command.saved_artifact() == Some(artifact) <==> command == artifact.save_command(),
        command.loaded_artifact() == Some(artifact) <==> command == artifact.load_command(),
        !(command.saved_artifact() is Some && command.loaded_artifact() is Some),
{
}

/// Where the name stands in a greeting: behind the opening words.
pub const GREETING_OFFSET: usize = 7;

/// The greeting for `name`.
pub open spec fn greeting(name: Seq<char>) -> Seq<char> {
    "Hello, "@ + name + "! You've been greeted from Rust!"@
}

/// The answer to the health probe.
pub open spec fn probe_answer() -> Seq<char> {
    "ok"@
}

/// `fetch_default_settings`: a copy of the published settings, or the text
/// of [`crate::error::ShellError::NotInitialized`] where none were
/// published yet.
pub fn fetch_default_settings(store: &SettingsStore) -> (reply: Result<Settings, String>)
    ensures
        wire_view(reply) == on_wire(fetch_outcome(store.published())),
{
    into_wire(store.fetch())
}

/// `start_server`, second half: the port that the listener was bound to, or
/// the text of the failure to bind. The first half is the bind itself.
pub fn start_server(bound: Result<u16, String>) -> (reply: Result<u16, String>)
    ensures
        wire_view(reply) == on_wire(start_reply_for(bind_view(bound))),
{
    into_wire(start_reply(bound))
}

/// `save_access_token`, first half: what to write.
pub fn save_access_token(token: String) -> (write: StoreWrite)
    ensures
        write@ == write_for(Artifact::AccessToken, token@),
{
    save_request(Artifact::AccessToken, token)
}

/// `load_access_token`, first half: what to read.
pub fn load_access_token() -> (read: StoreRead)
    ensures
        read@ == read_for(Artifact::AccessToken),
{
    load_request(Artifact::AccessToken)
}

/// `save_code`, first half: what to write.
pub fn save_code(code: String) -> (write: StoreWrite)
    ensures
        write@ == write_for(Artifact::Code, code@),
{
    save_request(Artifact::Code, code)
}

/// `load_code`, first half: what to read.
pub fn load_code() -> (read: StoreRead)
    ensures
        read@ == read_for(Artifact::Code),
{
    load_request(Artifact::Code)
}

/// Second half of the two commands that save: the reply, given what the
/// store answered to the write.
pub fn save_finished(outcome: WriteOutcome) -> (reply: Result<(), String>)
    ensures
        wire_view(reply) == on_wire(save_reply_for(outcome@)),
{
    into_wire(save_reply(outcome))
}

/// Second half of the two commands that load: the reply, given what the
/// store answered to the read of `artifact`.
pub fn load_finished(artifact: Artifact, outcome: ReadOutcome) -> (reply: Result<String, String>)
    ensures
        wire_view(reply) == on_wire(load_reply_for(artifact, outcome@)),
{
    into_wire(load_reply(artifact, outcome))
}

/// `greet`: a greeting that holds `name` as it was given, behind the opening
/// words.
pub fn greet(name: &str) -> (text: String)
    ensures
        text@ == greeting(name@),
        text@.len() > 0,
        text@.subrange(GREETING_OFFSET as int, GREETING_OFFSET + name@.len()) == name@,
{
    proof {
        reveal_strlit("Hello, ");
        assert("Hello, "@.len() == 7);
    }
    let mut text = String::from_str("Hello, ");
    text.append(name);
    text.append("! You've been greeted from Rust!");
    text
}

/// `test_command`: the health probe. It always gives the same answer.
pub fn test_command() -> (answer: String)
    ensures
        answer@ == probe_answer(),
{
    String::from_str("ok")
}

} // verus!
