use desktop_shell::error::{into_wire, ShellError};
use desktop_shell::persistence::Artifact;

#[test]
fn each_failure_has_its_text() {
    assert_eq!(ShellError::ConfigLoad("no such file".to_string()).message(), "no such file");
    assert_eq!(ShellError::NotInitialized.message(), "Settings not initialized");
    assert_eq!(ShellError::AlreadyInitialized.message(), "Failed to set settings");
    assert_eq!(ShellError::PersistenceIo("x".to_string()).message(), "storage failure: x");
    assert_eq!(ShellError::MissingKey(Artifact::AccessToken).message(), "missing key: access_token");
    assert_eq!(ShellError::MissingKey(Artifact::Code).message(), "missing key: code");
    assert_eq!(ShellError::Bind("address in use".to_string()).message(), "address in use");
    assert_eq!(ShellError::Serialization("x".to_string()).message(), "serialization failure: x");
    assert_eq!(ShellError::Host("boom".to_string()).message(), "boom");
}

#[test]
fn empty_cause_keeps_the_prefix() {
    assert_eq!(ShellError::PersistenceIo(String::new()).message(), "storage failure: ");
    assert_eq!(ShellError::Serialization(String::new()).message(), "serialization failure: ");
    assert_eq!(ShellError::ConfigLoad(String::new()).message(), "");
}

#[test]
fn into_wire_keeps_success_and_turns_failure_into_text() {
    let fine: Result<u16, ShellError> = Ok(8080);
    assert_eq!(into_wire(fine), Ok(8080));
    let bad: Result<u16, ShellError> = Err(ShellError::Bind("no port".to_string()));
    assert_eq!(into_wire(bad), Err("no port".to_string()));
    let text: Result<String, ShellError> = Ok("kept".to_string());
    assert_eq!(into_wire(text), Ok("kept".to_string()));
}
