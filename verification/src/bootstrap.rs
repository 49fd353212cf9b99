//! The start-up sequence of the shell.
//!
//! Start-up is a fixed row of steps, each of which is work for the host:
//! load the environment file, register the plugins, load the settings,
//! install the logger (debug builds only), register the commands, run the
//! event loop. The caller carries out the step that is due and reports what
//! came of it; [`advance`] says what follows. The settings are published
//! into the store by [`advance`] itself, the moment they are reported as
//! loaded.

use vstd::prelude::*;
use crate::error::{ShellError, ShellErrorView};
use crate::settings::{Settings, SettingsView};
use crate::store::{fetch_outcome, publish_outcome, SettingsStore};

verus! {

/// Name of the environment file. That it is absent is no failure.
pub const ENV_FILE: &'static str = ".env";

/// Path of the settings resource, from the working directory at launch.
pub const SETTINGS_FILE: &'static str = "resources/default_settings.json";

/// Exit code after the user interface was closed in the ordinary way.
pub const EXIT_CLEAN: i32 = 0;

/// Exit code after start-up failed.
pub const EXIT_FAILED: i32 = 1;

/// Cause given where the host reports something other than the outcome of
/// the step that is due.
pub const OUT_OF_ORDER: &'static str = "start-up event out of order";

/// The steps of start-up that are work for the host, in their order.
#[derive(Clone, Copy, Debug, PartialEq, Eq, Structural)]
pub enum Step {
    LoadEnvironment,
    RegisterPlugins,
    LoadSettings,
    InstallLogger,
    RegisterCommands,
    RunEventLoop,
}

/// What the host reports of the step that was due.
#[derive(Debug, PartialEq, Eq)]
pub enum Event {
    /// The environment file was read.
    EnvironmentLoaded,
    /// There is no environment file.
    EnvironmentFileAbsent,
    /// The plugins are registered.
    PluginsRegistered,
    /// The settings resource was read and parsed, with this result.
    SettingsLoaded(Settings),
    /// The logger is installed.
    LoggerInstalled,
    /// The commands are registered.
    CommandsRegistered,
    /// The event loop has ended: the user interface was closed.
    EventLoopEnded,
    /// The step failed, for this cause.
    Failed(String),
}

/// Mathematical value of an [`Event`].
pub enum EventView {
    EnvironmentLoaded,
    EnvironmentFileAbsent,
    PluginsRegistered,
    SettingsLoaded(SettingsView),
    LoggerInstalled,
    CommandsRegistered,
    EventLoopEnded,
    Failed(Seq<char>),
}

impl View for Event {
    type V = EventView;

    open spec fn view(&self) -> EventView {
        match self {
            Event::EnvironmentLoaded => EventView::EnvironmentLoaded,
            Event::EnvironmentFileAbsent => EventView::EnvironmentFileAbsent,
            Event::PluginsRegistered => EventView::PluginsRegistered,
            Event::SettingsLoaded(settings) => EventView::SettingsLoaded(settings@),
            Event::LoggerInstalled => EventView::LoggerInstalled,
            Event::CommandsRegistered => EventView::CommandsRegistered,
            Event::EventLoopEnded => EventView::EventLoopEnded,
            Event::Failed(cause) => EventView::Failed(cause@),
        }
    }
}

/// How start-up goes on.
#[derive(Debug, PartialEq, Eq)]
pub enum Progress {
    /// This step is due next.
    Next(Step),
    /// Start-up has failed and the process has to end.
    Abort(ShellError),
    /// The shell has run and ended in the ordinary way.
    Finished,
}

/// Mathematical value of a [`Progress`].
pub enum ProgressView {
    Next(Step),
    Abort(ShellErrorView),
    Finished,
}

impl View for Progress {
    type V = ProgressView;

    open spec fn view(&self) -> ProgressView {
        match self {
            Progress::Next(step) => ProgressView::Next(*step),
            Progress::Abort(error) => ProgressView::Abort(error@),
            Progress::Finished => ProgressView::Finished,
        }
    }
}

impl Step {
    /// The place of the step in the row, counted from zero.
    pub open spec fn position(self) -> nat {
        match self {
            Step::LoadEnvironment => 0,
            Step::RegisterPlugins => 1,
            Step::LoadSettings => 2,
            Step::InstallLogger => 3,
            Step::RegisterCommands => 4,
            Step::RunEventLoop => 5,
        }
    }

    /// The step that follows this one where it succeeded, if one follows.
    /// The logger is installed in debug builds only.
    pub open spec fn successor(self, debug_build: bool) -> Option<Step> {
        match self {
            Step::LoadEnvironment => Some(Step::RegisterPlugins),
            Step::RegisterPlugins => Some(Step::LoadSettings),
            Step::LoadSettings => Some(
                if debug_build {
                    Step::InstallLogger
                } else {
                    Step::RegisterCommands
                },
            ),
            Step::InstallLogger => Some(Step::RegisterCommands),
            Step::RegisterCommands => Some(Step::RunEventLoop),
            Step::RunEventLoop => None,
        }
    }

    /// Whether `event` reports that this step succeeded.
    pub open spec fn completed_by(self, event: EventView) -> bool {
        match self {
            Step::LoadEnvironment => event is EnvironmentLoaded || event is EnvironmentFileAbsent,
            Step::RegisterPlugins => event is PluginsRegistered,
            Step::LoadSettings => event is SettingsLoaded,
            Step::InstallLogger => event is LoggerInstalled,
            Step::RegisterCommands => event is CommandsRegistered,
            Step::RunEventLoop => event is EventLoopEnded,
        }
    }

    /// The failure with which start-up ends where this step failed for
    /// `cause`. The cause is passed on as it is.
    pub open spec fn failure(self, cause: Seq<char>) -> ShellErrorView {
        if self == Step::LoadSettings {
            ShellErrorView::ConfigLoad(cause)
        } else {
            ShellErrorView::Host(cause)
        }
    }
}

/// How start-up goes on when `event` is reported while `step` is due and the
/// store holds `held`, and what the store holds afterwards.
///
/// A step that failed ends start-up. A step that succeeded is followed by
/// its successor; the settings, once loaded, are published first, and
/// start-up ends if the store refuses them. The last step is followed by
/// nothing. Any other event is out of order and ends start-up as well.
pub open spec fn advance_outcome(
    step: Step,
    event: EventView,
    held: Option<SettingsView>,
    debug_build: bool,
) -> (ProgressView, Option<SettingsView>) {
    if let EventView::Failed(cause) = event {
        (ProgressView::Abort(step.failure(cause)), held)
    } else if !step.completed_by(event) {
        (ProgressView::Abort(ShellErrorView::Host(OUT_OF_ORDER@)), held)
    } else if let EventView::SettingsLoaded(settings) = event {
        match publish_outcome(held, settings).1 {
            Ok(_) => (
                ProgressView::Next(step.successor(debug_build)->0),
                publish_outcome(held, settings).0,
            ),
            Err(error) => (ProgressView::Abort(error), publish_outcome(held, settings).0),
        }
    } else {
        match step.successor(debug_build) {
            Some(next) => (ProgressView::Next(next), held),
            None => (ProgressView::Finished, held),
        }
    }
}

/// The exit code that goes with `progress`, where the process ends.
pub open spec fn exit_code_for(progress: ProgressView) -> Option<i32> {
    match progress {
        ProgressView::Next(_) => None,
        ProgressView::Abort(_) => Some(EXIT_FAILED),
        ProgressView::Finished => Some(EXIT_CLEAN),
    }
}

/// Where start-up stands after the events `events` were reported one after
/// the other, beginning while `step` was due and the store held `held`.
/// Events that come after start-up has ended count for nothing.
pub open spec fn run_outcome(
    step: Step,
    events: Seq<EventView>,
    held: Option<SettingsView>,
    debug_build: bool,
) -> (ProgressView, Option<SettingsView>)
    decreases events.len(),
{
    if events.len() == 0 {
        (ProgressView::Next(step), held)
    } else {
        let (progress, after) = advance_outcome(step, events[0], held, debug_build);
        match progress {
            ProgressView::Next(next) => run_outcome(next, events.drop_first(), after, debug_build),
            _ => (progress, after),
        }
    }
}

/// The step with which start-up begins.
pub fn first_step() -> (step: Step)
    ensures
        step == Step::LoadEnvironment,
{
    Step::LoadEnvironment
}

impl Step {
    /// The failure with which start-up ends where this step failed for
    /// `cause`.
    fn failed(self, cause: String) -> (error: ShellError)
        ensures
            error@ == self.failure(cause@),
    {
        match self {
            Step::LoadSettings => ShellError::ConfigLoad(cause),
            _ => ShellError::Host(cause),
        }
    }

    /// The step that follows this one where it succeeded.
    fn following(self, debug_build: bool) -> (next: Option<Step>)
        ensures
            next == self.successor(debug_build),
    {
        match self {
            Step::LoadEnvironment => Some(Step::RegisterPlugins),
            Step::RegisterPlugins => Some(Step::LoadSettings),
            Step::LoadSettings => {
                if debug_build {
                    Some(Step::InstallLogger)
                } else {
                    Some(Step::RegisterCommands)
                }
            },
            Step::InstallLogger => Some(Step::RegisterCommands),
            Step::RegisterCommands => Some(Step::RunEventLoop),
            Step::RunEventLoop => None,
        }
    }
}

/// Takes what the host reports while `step` is due, publishes the settings
/// into `store` where they were loaded, and says how start-up goes on.
pub fn advance(step: Step, event: Event, store: &mut SettingsStore, debug_build: bool) -> (progress:
    Progress)
    ensures
        (progress@, final(store).published()) == advance_outcome(
            step,
            event@,
            old(store).published(),
            debug_build,
        ),
{
    match (step, event) {
        (_, Event::Failed(cause)) => Progress::Abort(step.failed(cause)),
        (Step::LoadSettings, Event::SettingsLoaded(settings)) => {
            match store.initialize(settings) {
                Ok(()) => match step.following(debug_build) {
                    Some(next) => Progress::Next(next),
                    None => Progress::Finished,
                },
                Err(error) => Progress::Abort(error),
            }
        },
        (Step::LoadEnvironment, Event::EnvironmentLoaded)
        | (Step::LoadEnvironment, Event::EnvironmentFileAbsent)
        | (Step::RegisterPlugins, Event::PluginsRegistered)
        | (Step::InstallLogger, Event::LoggerInstalled)
        | (Step::RegisterCommands, Event::CommandsRegistered)
        | (Step::RunEventLoop, Event::EventLoopEnded) => match step.following(debug_build) {
            Some(next) => Progress::Next(next),
            None => Progress::Finished,
        },
        _ => Progress::Abort(ShellError::Host(String::from_str(OUT_OF_ORDER))),
    }
}

impl Progress {
    /// The exit code of the process, where start-up says that it ends:
    /// zero after an ordinary end, not zero after a failure.
    pub fn exit_code(&self) -> (code: Option<i32>)
        ensures
            code == exit_code_for(self@),
            self is Abort ==> code is Some && code->0 != 0,
            self is Finished ==> code == Some(0i32),
    {
        match self {
            Progress::Next(_) => None,
            Progress::Abort(_) => Some(EXIT_FAILED),
            Progress::Finished => Some(EXIT_CLEAN),
        }
    }
}

/// A step that failed ends start-up, whichever step it was: the process
/// ends with an exit code that is not zero, and the store is left as it
/// was. Where it was the loading of the settings, the failure is a
/// [`ShellError::ConfigLoad`] with the cause that was reported.
pub proof fn lemma_failure_ends_startup(
    step: Step,
    cause: Seq<char>,
    held: Option<SettingsView>,
    debug_build: bool,
)
    ensures
        advance_outcome(step, EventView::Failed(cause), held, debug_build) == (
            ProgressView::Abort(step.failure(cause)),
            held,
        ),
        exit_code_for(advance_outcome(step, EventView::Failed(cause), held, debug_build).0) == Some(
            EXIT_FAILED,
        ),
        EXIT_FAILED != 0,
        Step::LoadSettings.failure(cause) == ShellErrorView::ConfigLoad(cause),
{
}

/// That there is no environment file does not end start-up: the plugins are
/// registered next, as they are after the file was read.
pub proof fn lemma_absent_environment_file_is_no_failure(
    held: Option<SettingsView>,
    debug_build: bool,
)
    ensures
        advance_outcome(Step::LoadEnvironment, EventView::EnvironmentFileAbsent, held, debug_build)
            == advance_outcome(
            Step::LoadEnvironment,
            EventView::EnvironmentLoaded,
            held,
            debug_build,
        ),
        advance_outcome(Step::LoadEnvironment, EventView::EnvironmentFileAbsent, held, debug_build)
            == (ProgressView::Next(Step::RegisterPlugins), held),
{
}

/// The order of the steps is fixed: whatever is reported, the step that
/// becomes due is the successor of the step that was due, and it stands
/// later in the row.
pub proof fn lemma_steps_follow_in_order(
    step: Step,
    event: EventView,
    held: Option<SettingsView>,
    debug_build: bool,
)
    ensures
        advance_outcome(step, event, held, debug_build).0 matches ProgressView::Next(next) ==> {
            &&& step.successor(debug_build) == Some(next)
            &&& next.position() > step.position()
        },
{
}

/// Start-up never goes back: the step that is due after any row of events
/// stands no earlier than the step that was due before it.
pub proof fn lemma_startup_moves_forward(
    step: Step,
    events: Seq<EventView>,
    held: Option<SettingsView>,
    debug_build: bool,
)
    ensures
        run_outcome(step, events, held, debug_build).0 matches ProgressView::Next(reached)
            ==> reached.position() >= step.position(),
    decreases events.len(),
{
    if events.len() > 0 {
        let (progress, after) = advance_outcome(step, events[0], held, debug_build);
        if let ProgressView::Next(next) = progress {
            lemma_steps_follow_in_order(step, events[0], held, debug_build);
            lemma_startup_moves_forward(next, events.drop_first(), after, debug_build);
        }
    }
}

/// Settings that are published stay published: no row of events, begun at
/// whatever step, changes what the store holds once it holds a record.
pub proof fn lemma_published_settings_survive(
    step: Step,
    events: Seq<EventView>,
    held: SettingsView,
    debug_build: bool,
)
    ensures
        run_outcome(step, events, Some(held), debug_build).1 == Some(held),
    decreases events.len(),
{
    if events.len() > 0 {
        let (progress, after) = advance_outcome(step, events[0], Some(held), debug_build);
        if let ProgressView::Next(next) = progress {
            lemma_published_settings_survive(next, events.drop_first(), held, debug_build);
        }
    }
}

/// Once start-up has gone past the loading of the settings, the store holds
/// the record that was reported as loaded, and a fetch replies with that
/// record. This holds of every row of events with which start-up can get
/// that far from its first step and an empty store.
pub proof fn lemma_settings_are_fetched_after_startup(events: Seq<EventView>, debug_build: bool)
    requires
        run_outcome(Step::LoadEnvironment, events, None, debug_build).0 is Finished || (run_outcome(
            Step::LoadEnvironment,
            events,
            None,
            debug_build,
        ).0 matches ProgressView::Next(reached) && reached.position() > Step::LoadSettings.position()),
    ensures
        events.len() > 2,
        events[2] matches EventView::SettingsLoaded(loaded) && {
            &&& run_outcome(Step::LoadEnvironment, events, None, debug_build).1 == Some(loaded)
            &&& fetch_outcome(run_outcome(Step::LoadEnvironment, events, None, debug_build).1)
                == Ok::<SettingsView, ShellErrorView>(loaded)
        },
{
    reveal_with_fuel(run_outcome, 4);
    let after_environment = events.drop_first();
    let after_plugins = after_environment.drop_first();
    assert(after_plugins[0] == events[2]);
    let loaded = events[2]->SettingsLoaded_0;
    let next = Step::LoadSettings.successor(debug_build)->0;
    lemma_published_settings_survive(next, after_plugins.drop_first(), loaded, debug_build);
}

/// Before the settings are published, none can be fetched: as long as
/// start-up, begun at its first step with an empty store, has not gone past
/// the loading of the settings, the store is empty and a fetch is refused
/// with [`ShellError::NotInitialized`].
pub proof fn lemma_nothing_is_fetched_before_publication(
    events: Seq<EventView>,
    debug_build: bool,
)
    requires
        run_outcome(Step::LoadEnvironment, events, None, debug_build).0 matches ProgressView::Next(
            reached,
        ) && reached.position() <= Step::LoadSettings.position(),
    ensures
        run_outcome(Step::LoadEnvironment, events, None, debug_build).1 is None,
        fetch_outcome(run_outcome(Step::LoadEnvironment, events, None, debug_build).1) == Err::<
            SettingsView,
            ShellErrorView,
        >(ShellErrorView::NotInitialized),
{
    reveal_with_fuel(run_outcome, 4);
    if events.len() > 2 {
        let after_plugins = events.drop_first().drop_first();
        assert(after_plugins[0] == events[2]);
        let (progress, after) = advance_outcome(Step::LoadSettings, events[2], None, debug_build);
        if let ProgressView::Next(next) = progress {
            lemma_startup_moves_forward(next, after_plugins.drop_first(), after, debug_build);
        }
    }
}

} // verus!
