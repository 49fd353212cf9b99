use std::collections::HashMap;

use desktop_shell::command::{
    load_access_token, load_code, load_finished, save_access_token, save_code, save_finished,
};
use desktop_shell::error::ShellError;
use desktop_shell::persistence::{
    load_reply, load_request, save_reply, save_request, Artifact, ReadOutcome, StoreRead,
    StoreWrite, WriteOutcome, STORE_NAME,
};

/// A key-value store in memory, for the tests: texts and one value that is no text.
struct Medium {
    texts: HashMap<(String, String), Option<String>>,
}

impl Medium {
    fn new() -> Medium {
        Medium { texts: HashMap::new() }
    }

    fn write(&mut self, write: StoreWrite) -> WriteOutcome {
        self.texts
            .insert((write.store.to_string(), write.key.to_string()), Some(write.value));
        WriteOutcome::Written
    }

    fn read(&self, read: StoreRead) -> ReadOutcome {
        match self.texts.get(&(read.store.to_string(), read.key.to_string())) {
            Some(Some(text)) => ReadOutcome::Found(text.clone()),
            Some(None) => ReadOutcome::NotText,
            None => ReadOutcome::Missing,
        }
    }
}

#[test]
fn artifact_keys_are_the_well_known_names() {
    assert_eq!(Artifact::AccessToken.key(), "access_token");
    assert_eq!(Artifact::Code.key(), "code");
    assert_ne!(Artifact::AccessToken.key(), Artifact::Code.key());
}

#[test]
fn requests_name_the_one_store() {
    assert_eq!(STORE_NAME, "store.json");
    assert_eq!(
        save_request(Artifact::Code, "c".to_string()),
        StoreWrite { store: "store.json", key: "code", value: "c".to_string() }
    );
    assert_eq!(
        load_request(Artifact::AccessToken),
        StoreRead { store: "store.json", key: "access_token" }
    );
}

#[test]
fn command_halves_name_their_artifact() {
    assert_eq!(save_access_token("t".to_string()), save_request(Artifact::AccessToken, "t".to_string()));
    assert_eq!(save_code("c".to_string()), save_request(Artifact::Code, "c".to_string()));
    assert_eq!(load_access_token(), load_request(Artifact::AccessToken));
    assert_eq!(load_code(), load_request(Artifact::Code));
}

#[test]
fn saved_access_token_is_loaded_again() {
    let mut medium = Medium::new();
    let written = medium.write(save_access_token("abc".to_string()));
    assert_eq!(save_finished(written), Ok(()));
    let read = medium.read(load_access_token());
    assert_eq!(load_finished(Artifact::AccessToken, read), Ok("abc".to_string()));
}

#[test]
fn load_code_without_save_is_a_missing_key() {
    let medium = Medium::new();
    let read = medium.read(load_code());
    assert_eq!(read, ReadOutcome::Missing);
    assert_eq!(
        load_reply(Artifact::Code, ReadOutcome::Missing),
        Err(ShellError::MissingKey(Artifact::Code))
    );
    assert_eq!(
        load_finished(Artifact::Code, read),
        Err("missing key: code".to_string())
    );
}

#[test]
fn round_trip_holds_for_both_artifacts_and_odd_texts() {
    let texts = ["", "abc", " spaced out ", "line\nbreak", "ünïcödé ✓", "{\"json\":true}"];
    for artifact in [Artifact::AccessToken, Artifact::Code] {
        for text in texts {
            let mut medium = Medium::new();
            medium.write(save_request(artifact, "earlier".to_string()));
            medium.write(save_request(artifact, text.to_string()));
            let read = medium.read(load_request(artifact));
            assert_eq!(load_reply(artifact, read), Ok(text.to_string()));
        }
    }
}

#[test]
fn save_of_one_artifact_leaves_the_other() {
    let mut medium = Medium::new();
    medium.write(save_access_token("token".to_string()));
    assert_eq!(
        load_finished(Artifact::Code, medium.read(load_code())),
        Err("missing key: code".to_string())
    );
    medium.write(save_code("code-1".to_string()));
    assert_eq!(
        load_finished(Artifact::AccessToken, medium.read(load_access_token())),
        Ok("token".to_string())
    );
    assert_eq!(
        load_finished(Artifact::Code, medium.read(load_code())),
        Ok("code-1".to_string())
    );
}

#[test]
fn value_that_is_no_text_is_a_serialization_failure() {
    let mut medium = Medium::new();
    medium.texts.insert(("store.json".to_string(), "code".to_string()), None);
    let read = medium.read(load_code());
    assert_eq!(
        load_reply(Artifact::Code, ReadOutcome::NotText),
        Err(ShellError::Serialization("code".to_string()))
    );
    assert_eq!(
        load_finished(Artifact::Code, read),
        Err("serialization failure: code".to_string())
    );
}

#[test]
fn failed_read_is_a_persistence_failure() {
    assert_eq!(
        load_reply(Artifact::AccessToken, ReadOutcome::Failed("disk gone".to_string())),
        Err(ShellError::PersistenceIo("disk gone".to_string()))
    );
    assert_eq!(
        load_finished(Artifact::AccessToken, ReadOutcome::Failed("disk gone".to_string())),
        Err("storage failure: disk gone".to_string())
    );
}

#[test]
fn failed_write_is_a_persistence_failure() {
    assert_eq!(save_reply(WriteOutcome::Written), Ok(()));
    assert_eq!(
        save_reply(WriteOutcome::Failed("read-only".to_string())),
        Err(ShellError::PersistenceIo("read-only".to_string()))
    );
    assert_eq!(
        save_finished(WriteOutcome::Failed("read-only".to_string())),
        Err("storage failure: read-only".to_string())
    );
}

#[test]
fn missing_key_and_failed_read_differ_even_for_a_misleading_cause() {
    let missing = load_finished(Artifact::Code, ReadOutcome::Missing);
    let failed = load_finished(Artifact::Code, ReadOutcome::Failed("missing key: code".to_string()));
    assert_ne!(missing, failed);
    assert_eq!(failed, Err("storage failure: missing key: code".to_string()));
}
