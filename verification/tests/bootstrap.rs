use desktop_shell::bootstrap::{
    advance, first_step, Event, Progress, Step, ENV_FILE, EXIT_CLEAN, EXIT_FAILED, OUT_OF_ORDER,
    SETTINGS_FILE,
};
use desktop_shell::command::fetch_default_settings;
use desktop_shell::error::ShellError;
use desktop_shell::settings::Settings;
use desktop_shell::store::SettingsStore;

/// Stands in for the host, which reads the settings resource: a map with a
/// text `theme` and a number `ui_scale`.
fn read_settings(text: &str) -> Event {
    let document: serde_json::Value = match serde_json::from_str(text) {
        Ok(document) => document,
        Err(error) => return Event::Failed(error.to_string()),
    };
    let theme = match document.get("theme").and_then(|theme| theme.as_str()) {
        Some(theme) => theme.to_string(),
        None => return Event::Failed("missing field `theme`".to_string()),
    };
    let scale = match document.get("ui_scale").and_then(|scale| scale.as_f64()) {
        Some(scale) => scale,
        None => return Event::Failed("missing field `ui_scale`".to_string()),
    };
    Event::SettingsLoaded(Settings::new(theme, scale.to_bits()))
}

/// Runs start-up with a host on which every step but the loading of the
/// settings succeeds, and says how it ended and which steps were due.
fn start_up(settings: &str, debug_build: bool, store: &mut SettingsStore) -> (Progress, Vec<Step>) {
    let mut step = first_step();
    let mut due = Vec::new();
    loop {
        due.push(step);
        let event = match step {
            Step::LoadEnvironment => Event::EnvironmentFileAbsent,
            Step::RegisterPlugins => Event::PluginsRegistered,
            Step::LoadSettings => read_settings(settings),
            Step::InstallLogger => Event::LoggerInstalled,
            Step::RegisterCommands => Event::CommandsRegistered,
            Step::RunEventLoop => Event::EventLoopEnded,
        };
        match advance(step, event, store, debug_build) {
            Progress::Next(next) => step = next,
            ended => return (ended, due),
        }
    }
}

#[test]
fn well_known_files_and_exit_codes() {
    assert_eq!(ENV_FILE, ".env");
    assert_eq!(SETTINGS_FILE, "resources/default_settings.json");
    assert_eq!(EXIT_CLEAN, 0);
    assert_ne!(EXIT_FAILED, 0);
}

#[test]
fn start_up_begins_with_the_environment() {
    assert_eq!(first_step(), Step::LoadEnvironment);
}

#[test]
fn steps_come_in_their_order_in_a_release_build() {
    let mut store = SettingsStore::new();
    let (ended, due) = start_up("{\"theme\":\"dark\",\"ui_scale\":1.25}", false, &mut store);
    assert_eq!(ended, Progress::Finished);
    assert_eq!(ended.exit_code(), Some(0));
    assert_eq!(
        due,
        vec![
            Step::LoadEnvironment,
            Step::RegisterPlugins,
            Step::LoadSettings,
            Step::RegisterCommands,
            Step::RunEventLoop,
        ]
    );
}

#[test]
fn debug_build_installs_the_logger_after_the_settings() {
    let mut store = SettingsStore::new();
    let (ended, due) = start_up("{\"theme\":\"dark\",\"ui_scale\":1.25}", true, &mut store);
    assert_eq!(ended, Progress::Finished);
    assert_eq!(
        due,
        vec![
            Step::LoadEnvironment,
            Step::RegisterPlugins,
            Step::LoadSettings,
            Step::InstallLogger,
            Step::RegisterCommands,
            Step::RunEventLoop,
        ]
    );
}

#[test]
fn settings_file_is_fetched_after_start_up() {
    let mut store = SettingsStore::new();
    let (ended, _) = start_up("{\"theme\":\"dark\",\"ui_scale\":1.25}", false, &mut store);
    assert_eq!(ended, Progress::Finished);
    let found = fetch_default_settings(&store).unwrap();
    assert_eq!(found.theme, "dark");
    assert_eq!(f64::from_bits(found.ui_scale_bits), 1.25);
    assert_eq!(fetch_default_settings(&store), Ok(found));
}

#[test]
fn settings_are_published_the_moment_they_are_loaded() {
    let mut store = SettingsStore::new();
    let record = Settings::new("dark".to_string(), 1.25f64.to_bits());
    let progress = advance(Step::LoadSettings, Event::SettingsLoaded(record.clone()), &mut store, false);
    assert_eq!(progress, Progress::Next(Step::RegisterCommands));
    assert_eq!(store.fetch(), Ok(record));
}

#[test]
fn nothing_is_fetched_before_the_settings_are_loaded() {
    let mut store = SettingsStore::new();
    assert_eq!(fetch_default_settings(&store), Err("Settings not initialized".to_string()));
    let progress = advance(Step::LoadEnvironment, Event::EnvironmentLoaded, &mut store, true);
    assert_eq!(progress, Progress::Next(Step::RegisterPlugins));
    assert_eq!(fetch_default_settings(&store), Err("Settings not initialized".to_string()));
    let progress = advance(Step::RegisterPlugins, Event::PluginsRegistered, &mut store, true);
    assert_eq!(progress, Progress::Next(Step::LoadSettings));
    assert_eq!(fetch_default_settings(&store), Err("Settings not initialized".to_string()));
}

#[test]
fn missing_ui_scale_ends_start_up() {
    let mut store = SettingsStore::new();
    let (ended, due) = start_up("{\"theme\":\"dark\"}", false, &mut store);
    assert_eq!(
        ended,
        Progress::Abort(ShellError::ConfigLoad("missing field `ui_scale`".to_string()))
    );
    assert_eq!(ended.exit_code(), Some(EXIT_FAILED));
    assert_ne!(ended.exit_code(), Some(0));
    assert_eq!(due.last(), Some(&Step::LoadSettings));
    assert_eq!(store.fetch(), Err(ShellError::NotInitialized));
}

#[test]
fn malformed_settings_end_start_up() {
    for text in ["", "{", "not json", "{\"theme\":\"dark\",\"ui_scale\":}", "[1,2"] {
        let mut store = SettingsStore::new();
        let (ended, _) = start_up(text, true, &mut store);
        match &ended {
            Progress::Abort(ShellError::ConfigLoad(cause)) => assert!(!cause.is_empty()),
            other => panic!("start-up went on: {:?}", other),
        }
        assert_eq!(ended.exit_code(), Some(1));
        assert_eq!(store.fetch(), Err(ShellError::NotInitialized));
    }
}

#[test]
fn failure_of_any_step_ends_start_up() {
    for step in [
        Step::LoadEnvironment,
        Step::RegisterPlugins,
        Step::InstallLogger,
        Step::RegisterCommands,
        Step::RunEventLoop,
    ] {
        let mut store = SettingsStore::new();
        let progress = advance(step, Event::Failed("broken".to_string()), &mut store, true);
        assert_eq!(progress, Progress::Abort(ShellError::Host("broken".to_string())));
        assert_eq!(progress.exit_code(), Some(1));
    }
    let mut store = SettingsStore::new();
    let progress = advance(Step::LoadSettings, Event::Failed("broken".to_string()), &mut store, true);
    assert_eq!(progress, Progress::Abort(ShellError::ConfigLoad("broken".to_string())));
}

#[test]
fn absent_environment_file_is_no_failure() {
    let mut store = SettingsStore::new();
    assert_eq!(
        advance(Step::LoadEnvironment, Event::EnvironmentFileAbsent, &mut store, false),
        Progress::Next(Step::RegisterPlugins)
    );
    assert_eq!(
        advance(Step::LoadEnvironment, Event::EnvironmentLoaded, &mut store, false),
        Progress::Next(Step::RegisterPlugins)
    );
}

#[test]
fn event_out_of_order_ends_start_up() {
    let out_of_order = Progress::Abort(ShellError::Host(OUT_OF_ORDER.to_string()));
    let mut store = SettingsStore::new();
    assert_eq!(
        advance(Step::LoadEnvironment, Event::PluginsRegistered, &mut store, false),
        out_of_order
    );
    assert_eq!(
        advance(Step::RegisterPlugins, Event::EnvironmentFileAbsent, &mut store, false),
        out_of_order
    );
    assert_eq!(
        advance(Step::LoadSettings, Event::LoggerInstalled, &mut store, true),
        out_of_order
    );
    assert_eq!(
        advance(Step::RunEventLoop, Event::CommandsRegistered, &mut store, false),
        out_of_order
    );
    let record = Settings::new("dark".to_string(), 1.25f64.to_bits());
    assert_eq!(
        advance(Step::RegisterCommands, Event::SettingsLoaded(record), &mut store, false),
        out_of_order
    );
    assert_eq!(store.fetch(), Err(ShellError::NotInitialized));
    assert_eq!(out_of_order.exit_code(), Some(1));
}

#[test]
fn settings_loaded_twice_end_start_up_and_keep_the_first() {
    let mut store = SettingsStore::new();
    let first = Settings::new("dark".to_string(), 1.25f64.to_bits());
    let second = Settings::new("light".to_string(), 2.0f64.to_bits());
    assert_eq!(
        advance(Step::LoadSettings, Event::SettingsLoaded(first.clone()), &mut store, true),
        Progress::Next(Step::InstallLogger)
    );
    let again = advance(Step::LoadSettings, Event::SettingsLoaded(second), &mut store, true);
    assert_eq!(again, Progress::Abort(ShellError::AlreadyInitialized));
    assert_eq!(again.exit_code(), Some(1));
    assert_eq!(store.fetch(), Ok(first));
}

#[test]
fn step_that_is_due_has_no_exit_code() {
    assert_eq!(Progress::Next(Step::RunEventLoop).exit_code(), None);
    assert_eq!(Progress::Finished.exit_code(), Some(EXIT_CLEAN));
}
