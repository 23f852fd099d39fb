use crate::command::{backup_command, current_timestamp, synthesize};
use crate::config::{Config, ConfigView};
use crate::executor::{
    describe_helper, helper_container, helper_name, name_helper, HelperContainer, HelperContainerView,
};
use crate::image::{pull_needed, rendered, resolved, should_pull, ImageReference};
use crate::locator::{
    compose_command, extract_container_id, locate_command, located, ComposeCommand,
    ComposeCommandView, OutputView, ProcessOutput,
};
use crate::mounts::{destinations, retrieve_mount_destinations, Mount, MountView};
use crate::report::{
    emit, error_diagnostic, report, BackupError, Diagnostic, DiagnosticView, ErrorView, Level,
};
use vstd::prelude::*;
use vstd::string::*;

verus! {

/// How far the backup of one project has come.
#[derive(Debug, Clone, PartialEq, Eq)]
pub enum Step {
    /// The compose tool was asked for the service's container.
    Locating,
    /// The runtime was asked for the mounts of the container.
    Inspecting { container_id: String },
    /// The runtime was asked to create the helper container.
    Creating { command: String },
    /// The runtime was asked to start the helper container.
    Starting { command: String },
}

/// Where a backup pass stands.
#[derive(Debug, Clone, PartialEq, Eq)]
pub enum State {
    /// Nothing was done yet.
    Idle,
    /// The image was resolved and the runtime was asked whether it has it.
    ResolvingImage,
    /// The runtime was asked to pull the image.
    Pulling,
    /// The project at place `index` is being backed up.
    BackingUpProject { index: usize, step: Step },
    /// All projects were backed up.
    Done,
    /// The pass stopped at its first error.
    Failed { error: BackupError },
}

/// What the driver reports back to the pass.
#[derive(Debug, Clone, PartialEq, Eq)]
pub enum Event {
    /// The pass shall begin.
    Start,
    /// The image search came back with `matches` results.
    Searched { matches: usize },
    /// The image was pulled.
    Pulled,
    /// The compose tool ran.
    Located { output: ProcessOutput },
    /// The container was inspected and has these mounts.
    Inspected { mounts: Vec<Mount> },
    /// The helper container was created.
    Created,
    /// The helper container was started.
    Started,
    /// What the pass asked for could not be done.
    Failed { cause: String },
}

/// What the pass asks the driver to do next.
#[derive(Debug, Clone, PartialEq, Eq)]
pub enum Action {
    /// Search the runtime's image index for `term`.
    SearchImages { term: String },
    /// Pull the image.
    PullImage { from_image: String, tag: Option<String> },
    /// Run the compose tool.
    RunCompose { command: ComposeCommand },
    /// Inspect the container. `size` says whether its size is asked for too.
    InspectContainer { container_id: String, size: bool },
    /// Create the helper container.
    CreateContainer { container: HelperContainer },
    /// Start the helper container of that name, and do not wait for it.
    StartContainer { name: String },
    /// Nothing is left to do.
    Finish,
    /// Stop: the pass failed.
    Abort { error: BackupError },
}

/// A `Step` as mathematical text.
pub enum StepView {
    Locating,
    Inspecting { container_id: Seq<char> },
    Creating { command: Seq<char> },
    Starting { command: Seq<char> },
}

/// A `State` as mathematical text.
pub enum StateView {
    Idle,
    ResolvingImage,
    Pulling,
    BackingUpProject { index: nat, step: StepView },
    Done,
    Failed { error: ErrorView },
}

/// An `Event` as mathematical text.
pub enum EventView {
    Start,
    Searched { matches: nat },
    Pulled,
    Located { output: OutputView },
    Inspected { mounts: Seq<MountView> },
    Created,
    Started,
    Failed { cause: Seq<char> },
}

/// An `Action` as mathematical text.
pub enum ActionView {
    SearchImages { term: Seq<char> },
    PullImage { from_image: Seq<char>, tag: Option<Seq<char>> },
    RunCompose { command: ComposeCommandView },
    InspectContainer { container_id: Seq<char>, size: bool },
    CreateContainer { container: HelperContainerView },
    StartContainer { name: Seq<char> },
    Finish,
    Abort { error: ErrorView },
}

impl View for Step {
    type V = StepView;

    open spec fn view(&self) -> StepView {
        match self {
            Step::Locating => StepView::Locating,
            Step::Inspecting { container_id } => StepView::Inspecting {
                container_id: container_id@,
            },
            Step::Creating { command } => StepView::Creating { command: command@ },
            Step::Starting { command } => StepView::Starting { command: command@ },
        }
    }
}

impl View for State {
    type V = StateView;

    open spec fn view(&self) -> StateView {
        match self {
            State::Idle => StateView::Idle,
            State::ResolvingImage => StateView::ResolvingImage,
            State::Pulling => StateView::Pulling,
            State::BackingUpProject { index, step } => StateView::BackingUpProject {
                index: *index as nat,
                step: step@,
            },
            State::Done => StateView::Done,
            State::Failed { error } => StateView::Failed { error: error@ },
        }
    }
}

impl View for Event {
    type V = EventView;

    open spec fn view(&self) -> EventView {
        match self {
            Event::Start => EventView::Start,
            Event::Searched { matches } => EventView::Searched { matches: *matches as nat },
            Event::Pulled => EventView::Pulled,
            Event::Located { output } => EventView::Located { output: output@ },
            Event::Inspected { mounts } => EventView::Inspected { mounts: mounts.deep_view() },
            Event::Created => EventView::Created,
            Event::Started => EventView::Started,
            Event::Failed { cause } => EventView::Failed { cause: cause@ },
        }
    }
}

impl View for Action {
    type V = ActionView;

    open spec fn view(&self) -> ActionView {
        match self {
            Action::SearchImages { term } => ActionView::SearchImages { term: term@ },
            Action::PullImage { from_image, tag } => ActionView::PullImage {
                from_image: from_image@,
                tag: tag.deep_view(),
            },
            Action::RunCompose { command } => ActionView::RunCompose { command: command@ },
            Action::InspectContainer { container_id, size } => ActionView::InspectContainer {
                container_id: container_id@,
                size: *size,
            },
            Action::CreateContainer { container } => ActionView::CreateContainer {
                container: container@,
            },
            Action::StartContainer { name } => ActionView::StartContainer { name: name@ },
            Action::Finish => ActionView::Finish,
            Action::Abort { error } => ActionView::Abort { error: error@ },
        }
    }
}

/// One move of the pass: where it stands afterwards, what it asks for, and
/// what it wrote to the log.
pub struct Transition {
    pub state: StateView,
    pub action: ActionView,
    pub log: Seq<DiagnosticView>,
}

/// The reference of the helper image as the runtime takes it.
pub open spec fn reference_of(config: ConfigView) -> Seq<char> {
    rendered(resolved(config.image).name, resolved(config.image).tag)
}

/// A state is valid where the project that it speaks of exists.
pub open spec fn valid_state(config: ConfigView, state: StateView) -> bool {
    match state {
        StateView::BackingUpProject { index, step } => index < config.projects.len(),
        _ => true,
    }
}

/// The pass stops with `error`, and the log gets the error.
pub open spec fn failure(error: ErrorView) -> Transition {
    Transition {
        state: StateView::Failed { error },
        action: ActionView::Abort { error },
        log: seq![error_diagnostic(error)],
    }
}

/// The pass turns to the project at place `index`, or is done where there
/// is none.
pub open spec fn begin_project(config: ConfigView, index: nat) -> Transition {
    if index < config.projects.len() {
        let project = config.projects[index as int];
        Transition {
            state: StateView::BackingUpProject { index, step: StepView::Locating },
            action: ActionView::RunCompose { command: compose_command(project) },
            log: seq![
                DiagnosticView {
                    level: Level::Info,
                    message: "Backing up service "@ + project.service,
                },
            ],
        }
    } else {
        Transition { state: StateView::Done, action: ActionView::Finish, log: Seq::empty() }
    }
}

/// What the log gets when the mounts of a project's container are known: a
/// warning where there are none, since the helper container then archives
/// nothing.
pub open spec fn inspection_log(service: Seq<char>, mounts: Seq<MountView>) -> Seq<
    DiagnosticView,
> {
    if destinations(mounts).len() == 0 {
        seq![
            DiagnosticView {
                level: Level::Warning,
                message: "Service "@ + service + " has no mounts, nothing is archived"@,
            },
        ]
    } else {
        Seq::empty()
    }
}

/// What the log gets when the helper container of a project was started.
pub open spec fn completion_log(
    config: ConfigView,
    index: nat,
    command: Seq<char>,
) -> Seq<DiagnosticView> {
    seq![
        DiagnosticView {
            level: Level::Debug,
            message: "Image reference used "@ + reference_of(config),
        },
        DiagnosticView { level: Level::Debug, message: "Backup command used "@ + command },
        DiagnosticView {
            level: Level::Info,
            message: "Service "@ + config.projects[index as int].service
                + " backup complete, available in "@ + config.backup_directory,
        },
    ]
}

/// The move of the pass while it backs up the project at place `index`:
/// locate the container, inspect its mounts (its size is not asked for),
/// write the command, create the helper container and start it, then turn to
/// the next project. A failure
/// of the compose tool is a process error, a failure of the runtime a
/// runtime error; either stops the pass.
pub open spec fn project_transition(
    config: ConfigView,
    index: nat,
    step: StepView,
    event: EventView,
    timestamp: Seq<char>,
) -> Transition
    recommends
        index < config.projects.len(),
{
    let project = config.projects[index as int];
    match step {
        StepView::Locating => match event {
            EventView::Located { output } => match located(project, output) {
                Ok(container_id) => Transition {
                    state: StateView::BackingUpProject {
                        index,
                        step: StepView::Inspecting { container_id },
                    },
                    action: ActionView::InspectContainer { container_id, size: false },
                    log: Seq::empty(),
                },
                Err(error) => failure(error),
            },
            EventView::Failed { cause } => failure(ErrorView::Process { cause }),
            _ => failure(ErrorView::UnexpectedEvent),
        },
        StepView::Inspecting { container_id } => match event {
            EventView::Inspected { mounts } => {
                let command = backup_command(project, destinations(mounts), timestamp);
                Transition {
                    state: StateView::BackingUpProject {
                        index,
                        step: StepView::Creating { command },
                    },
                    action: ActionView::CreateContainer {
                        container: helper_container(
                            config.backup_directory,
                            project.service,
                            container_id,
                            reference_of(config),
                            command,
                        ),
                    },
                    log: inspection_log(project.service, mounts),
                }
            },
            EventView::Failed { cause } => failure(ErrorView::RuntimeOperation { cause }),
            _ => failure(ErrorView::UnexpectedEvent),
        },
        StepView::Creating { command } => match event {
            EventView::Created => Transition {
                state: StateView::BackingUpProject { index, step: StepView::Starting { command } },
                action: ActionView::StartContainer { name: helper_name(project.service) },
                log: Seq::empty(),
            },
            EventView::Failed { cause } => failure(ErrorView::RuntimeOperation { cause }),
            _ => failure(ErrorView::UnexpectedEvent),
        },
        StepView::Starting { command } => match event {
            EventView::Started => {
                let next = begin_project(config, index + 1);
                Transition {
                    state: next.state,
                    action: next.action,
                    log: completion_log(config, index, command) + next.log,
                }
            },
            EventView::Failed { cause } => failure(ErrorView::RuntimeOperation { cause }),
            _ => failure(ErrorView::UnexpectedEvent),
        },
    }
}

/// The move of the pass from `state` on `event`. `timestamp` is the time
/// that goes into the names of the archives where the move writes a command.
pub open spec fn transition(
    config: ConfigView,
    state: StateView,
    event: EventView,
    timestamp: Seq<char>,
) -> Transition {
    match state {
        StateView::Idle => match event {
            EventView::Start => Transition {
                state: StateView::ResolvingImage,
                action: ActionView::SearchImages { term: reference_of(config) },
                log: Seq::empty(),
            },
            _ => failure(ErrorView::UnexpectedEvent),
        },
        StateView::ResolvingImage => match event {
            EventView::Searched { matches } => if pull_needed(matches) {
                Transition {
                    state: StateView::Pulling,
                    action: ActionView::PullImage {
                        from_image: resolved(config.image).name,
                        tag: resolved(config.image).tag,
                    },
                    log: seq![
                        DiagnosticView {
                            level: Level::Info,
                            message: "Pulling "@ + reference_of(config),
                        },
                    ],
                }
            } else {
                begin_project(config, 0)
            },
            EventView::Failed { cause } => failure(ErrorView::RuntimeOperation { cause }),
            _ => failure(ErrorView::UnexpectedEvent),
        },
        StateView::Pulling => match event {
            EventView::Pulled => begin_project(config, 0),
            EventView::Failed { cause } => failure(ErrorView::RuntimeOperation { cause }),
            _ => failure(ErrorView::UnexpectedEvent),
        },
        StateView::BackingUpProject { index, step } => project_transition(
            config,
            index,
            step,
            event,
            timestamp,
        ),
        StateView::Done => Transition {
            state: StateView::Done,
            action: ActionView::Finish,
            log: Seq::empty(),
        },
        StateView::Failed { error } => Transition {
            state: StateView::Failed { error },
            action: ActionView::Abort { error },
            log: Seq::empty(),
        },
    }
}

/// The move `made` was made: the new state and the action are those of
/// the move, and the log grew by what the move wrote.
pub open spec fn follows(
    made: Transition,
    state: StateView,
    action: ActionView,
    log_before: Seq<DiagnosticView>,
    log_after: Seq<DiagnosticView>,
) -> bool {
    &&& state == made.state
    &&& action == made.action
    &&& log_after == log_before + made.log
}

/// A valid state stays valid under every move.
pub proof fn lemma_transition_valid(
    config: ConfigView,
    state: StateView,
    event: EventView,
    timestamp: Seq<char>,
)
    requires
        valid_state(config, state),
    ensures
        valid_state(config, transition(config, state, event, timestamp).state),
{
}

/// A pass that is done or has failed stays so whatever is reported to it,
/// asks for nothing more, and writes nothing to the log.
pub proof fn lemma_terminal_states_stay(
    config: ConfigView,
    state: StateView,
    event: EventView,
    timestamp: Seq<char>,
)
    requires
        state is Done || state is Failed,
    ensures
        transition(config, state, event, timestamp).state == state,
        transition(config, state, event, timestamp).log == Seq::<DiagnosticView>::empty(),
        state is Done ==> transition(config, state, event, timestamp).action is Finish,
        state is Failed ==> transition(config, state, event, timestamp).action is Abort,
{
}

/// The pass fails fast: a move that ends in failure asks the driver to
/// stop with that error, and a reported failure always ends in one.
pub proof fn lemma_fail_fast(
    config: ConfigView,
    state: StateView,
    event: EventView,
    timestamp: Seq<char>,
)
    requires
        valid_state(config, state),
    ensures
        ({
            let made = transition(config, state, event, timestamp);
            &&& made.state is Failed ==> made.action == (ActionView::Abort {
                error: made.state->error,
            })
            &&& event is Failed && !(state is Done) ==> made.state is Failed
            &&& made.action is Abort ==> made.state is Failed
            &&& made.action is Finish <==> made.state is Done
        }),
{
}

/// Projects are backed up one after the other, in their order: a move
/// stays with the project it found, or turns to the one that follows it, and
/// the first project that a pass turns to is the first of the configuration.
pub proof fn lemma_projects_in_order(
    config: ConfigView,
    state: StateView,
    event: EventView,
    timestamp: Seq<char>,
)
    requires
        valid_state(config, state),
    ensures
        ({
            let made = transition(config, state, event, timestamp);
            &&& made.state is BackingUpProject && state is BackingUpProject ==> {
                ||| made.state->index == state->index
                ||| made.state->index == state->index + 1 && state->step is Starting
                    && made.state->step is Locating
            }
            &&& made.state is BackingUpProject && !(state is BackingUpProject) ==> {
                &&& made.state->index == 0
                &&& made.state->step is Locating
                &&& state is ResolvingImage || state is Pulling
            }
            &&& made.state is Done && !(state is Done) ==> {
                ||| state is BackingUpProject && state->index + 1 == config.projects.len()
                ||| (state is ResolvingImage || state is Pulling) && config.projects.len() == 0
            }
        }),
{
}

/// The image is pulled exactly where its search gave no result.
pub proof fn lemma_pull_iff_no_match(config: ConfigView, matches: nat, timestamp: Seq<char>)
    ensures
        transition(
            config,
            StateView::ResolvingImage,
            EventView::Searched { matches },
            timestamp,
        ).state is Pulling <==> matches == 0,
        transition(
            config,
            StateView::ResolvingImage,
            EventView::Searched { matches },
            timestamp,
        ).action is PullImage <==> matches == 0,
{
}

/// Something that was reported to the pass, with the time that was read for it.
pub struct Report {
    pub event: EventView,
    pub timestamp: Seq<char>,
}

/// Where the pass stands after it was told `reports`, one after the other.
pub open spec fn replay(config: ConfigView, state: StateView, reports: Seq<Report>) -> StateView
    decreases reports.len(),
{
    if reports.len() == 0 {
        state
    } else {
        transition(
            config,
            replay(config, state, reports.drop_last()),
            reports.last().event,
            reports.last().timestamp,
        ).state
    }
}

/// Nothing that is reported to a pass that is done or has failed brings it
/// back: no project is tried after the first failure.
pub proof fn lemma_end_is_final(config: ConfigView, state: StateView, reports: Seq<Report>)
    requires
        state is Done || state is Failed,
    ensures
        replay(config, state, reports) == state,
    decreases reports.len(),
{
    if reports.len() > 0 {
        lemma_end_is_final(config, state, reports.drop_last());
    }
}

/// A pass that is busy with a project never turns back to an earlier one:
/// whatever is reported to it, it is then busy with the same or a later
/// project, or at its end.
pub proof fn lemma_no_project_twice(config: ConfigView, state: StateView, reports: Seq<Report>)
    requires
        valid_state(config, state),
        state is BackingUpProject,
    ensures
        valid_state(config, replay(config, state, reports)),
        ({
            let after = replay(config, state, reports);
            ||| after is BackingUpProject && after->index >= state->index
            ||| after is Done
            ||| after is Failed
        }),
    decreases reports.len(),
{
    if reports.len() > 0 {
        lemma_no_project_twice(config, state, reports.drop_last());
        let before = replay(config, state, reports.drop_last());
        lemma_projects_in_order(config, before, reports.last().event, reports.last().timestamp);
        lemma_transition_valid(config, before, reports.last().event, reports.last().timestamp);
    }
}

/// Stops the pass with `error`.
fn fail(error: BackupError, sink: &mut Vec<Diagnostic>) -> (out: (State, Action))
    ensures
        follows(failure(error@), out.0@, out.1@, old(sink).deep_view(), final(sink).deep_view()),
{
    report(sink, &error);
    assert(sink.deep_view() =~= old(sink).deep_view() + failure(error@).log);
    (State::Failed { error: error.duplicate() }, Action::Abort { error })
}

/// Joins two texts.
fn join(first: &str, second: &str) -> (text: String)
    ensures
        text@ == first@ + second@,
{
    let mut text = first.to_owned();
    text.append(second);
    text
}

/// Turns to the project at place `index`, or finishes where there is none.
fn begin(config: &Config, index: usize, sink: &mut Vec<Diagnostic>) -> (out: (State, Action))
    requires
        index <= config.projects.len(),
    ensures
        follows(
            begin_project(config@, index as nat),
            out.0@,
            out.1@,
            old(sink).deep_view(),
            final(sink).deep_view(),
        ),
{
    if index < config.projects.len() {
        let backup_config = &config.projects[index];
        emit(sink, Level::Info, join("Backing up service ", backup_config.service.as_str()));
        assert(sink.deep_view() =~= old(sink).deep_view() + begin_project(
            config@,
            index as nat,
        ).log);
        (
            State::BackingUpProject { index, step: Step::Locating },
            Action::RunCompose { command: locate_command(backup_config) },
        )
    } else {
        assert(sink.deep_view() =~= old(sink).deep_view() + begin_project(
            config@,
            index as nat,
        ).log);
        (State::Done, Action::Finish)
    }
}

/// The pass over the projects of one configuration. It does no work
/// itself: it says what is to be done next, and is told how that went.
#[derive(Debug)]
pub struct Backup<'a> {
    config: &'a Config,
    reference: ImageReference,
    state: State,
}

impl<'a> Backup<'a> {
    /// The configuration that the pass works on.
    pub closed spec fn config(&self) -> ConfigView {
        self.config@
    }

    /// Where the pass stands.
    pub closed spec fn state(&self) -> StateView {
        self.state@
    }

    /// What holds of every pass: its image was resolved from its
    /// configuration, and the project that it is busy with exists.
    pub closed spec fn wf(&self) -> bool {
        &&& self.reference@ == resolved(self.config@.image)
        &&& valid_state(self.config@, self.state@)
    }

    /// A pass over `config` that has not begun. The image is resolved here,
    /// once for the whole pass.
    pub fn new(config: &'a Config) -> (backup: Backup<'a>)
        ensures
            backup.wf(),
            backup.config() == config@,
            backup.state() == StateView::Idle,
    {
        Backup { config, reference: ImageReference::resolve(config), state: State::Idle }
    }

    /// Where the pass stands.
    pub fn current_state(&self) -> (state: &State)
        ensures
            state@ == self.state(),
    {
        &self.state
    }

    /// The image that the helper containers run.
    pub fn reference(&self) -> (reference: &ImageReference)
        requires
            self.wf(),
        ensures
            reference@ == resolved(self.config().image),
    {
        &self.reference
    }

    /// Whether the pass has come to its end, well or not.
    pub fn is_finished(&self) -> (finished: bool)
        ensures
            finished == (self.state() is Done || self.state() is Failed),
    {
        match &self.state {
            State::Done => true,
            State::Failed { .. } => true,
            _ => false,
        }
    }

    /// The moves of the pass while it backs up one project.
    fn backup_project(
        &self,
        index: usize,
        step: Step,
        event: Event,
        timestamp: &str,
        sink: &mut Vec<Diagnostic>,
    ) -> (out: (State, Action))
        requires
            self.reference@ == resolved(self.config@.image),
            index < self.config.projects.len(),
        ensures
            follows(
                project_transition(self.config@, index as nat, step@, event@, timestamp@),
                out.0@,
                out.1@,
                old(sink).deep_view(),
                final(sink).deep_view(),
            ),
    {
        let config = self.config;
        let backup_config = &config.projects[index];
        assert(config@.projects[index as int] == backup_config@);
        let ghost made = project_transition(
            self.config@,
            index as nat,
            step@,
            event@,
            timestamp@,
        );
        match step {
            Step::Locating => match event {
                Event::Located { output } => match extract_container_id(backup_config, &output) {
                    Ok(container_id) => {
                        assert(sink.deep_view() =~= old(sink).deep_view() + made.log);
                        (
                            State::BackingUpProject {
                                index,
                                step: Step::Inspecting { container_id: container_id.clone() },
                            },
                            Action::InspectContainer { container_id, size: false },
                        )
                    },
                    Err(error) => fail(error, sink),
                },
                Event::Failed { cause } => fail(BackupError::Process { cause }, sink),
                _ => fail(BackupError::UnexpectedEvent, sink),
            },
            Step::Inspecting { container_id } => match event {
                Event::Inspected { mounts } => {
                    let table = retrieve_mount_destinations(&mounts);
                    if table.len() == 0 {
                        let mut warning = join("Service ", backup_config.service.as_str());
                        warning.append(" has no mounts, nothing is archived");
                        emit(sink, Level::Warning, warning);
                    }
                    let command = synthesize(backup_config, &table, timestamp);
                    let reference = self.reference.render();
                    let container = describe_helper(
                        config,
                        backup_config,
                        container_id.as_str(),
                        reference.as_str(),
                        command.as_str(),
                    );
                    assert(sink.deep_view() =~= old(sink).deep_view() + made.log);
                    (
                        State::BackingUpProject { index, step: Step::Creating { command } },
                        Action::CreateContainer { container },
                    )
                },
                Event::Failed { cause } => fail(BackupError::RuntimeOperation { cause }, sink),
                _ => fail(BackupError::UnexpectedEvent, sink),
            },
            Step::Creating { command } => match event {
                Event::Created => {
                    assert(sink.deep_view() =~= old(sink).deep_view() + made.log);
                    (
                        State::BackingUpProject { index, step: Step::Starting { command } },
                        Action::StartContainer { name: name_helper(backup_config) },
                    )
                },
                Event::Failed { cause } => fail(BackupError::RuntimeOperation { cause }, sink),
                _ => fail(BackupError::UnexpectedEvent, sink),
            },
            Step::Starting { command } => match event {
                Event::Started => {
                    let reference = self.reference.render();
                    emit(sink, Level::Debug, join("Image reference used ", reference.as_str()));
                    emit(sink, Level::Debug, join("Backup command used ", command.as_str()));
                    let mut complete = join("Service ", backup_config.service.as_str());
                    complete.append(" backup complete, available in ");
                    complete.append(config.backup_directory.as_str());
                    emit(sink, Level::Info, complete);
                    let ghost logged = sink.deep_view();
                    assert(logged =~= old(sink).deep_view() + completion_log(
                        config@,
                        index as nat,
                        command@,
                    ));
                    let out = begin(config, index + 1, sink);
                    assert(sink.deep_view() =~= old(sink).deep_view() + made.log);
                    out
                },
                Event::Failed { cause } => fail(BackupError::RuntimeOperation { cause }, sink),
                _ => fail(BackupError::UnexpectedEvent, sink),
            },
        }
    }

    /// Makes the move that answers `event`, with `timestamp` as the time
    /// that goes into the names of the archives, and says what is to be done
    /// next.
    pub fn process_at(
        &mut self,
        event: Event,
        timestamp: &str,
        sink: &mut Vec<Diagnostic>,
    ) -> (action: Action)
        requires
            old(self).wf(),
        ensures
            final(self).wf(),
            final(self).config() == old(self).config(),
            valid_state(final(self).config(), final(self).state()),
            follows(
                transition(old(self).config(), old(self).state(), event@, timestamp@),
                final(self).state(),
                action@,
                old(sink).deep_view(),
                final(sink).deep_view(),
            ),
    {
        let ghost made = transition(self.config@, self.state@, event@, timestamp@);
        proof {
            lemma_transition_valid(self.config@, self.state@, event@, timestamp@);
        }
        let mut state = State::Idle;
        std::mem::swap(&mut self.state, &mut state);
        let out = match state {
            State::Idle => match event {
                Event::Start => {
                    assert(sink.deep_view() =~= old(sink).deep_view() + made.log);
                    (State::ResolvingImage, Action::SearchImages { term: self.reference.render() })
                },
                _ => fail(BackupError::UnexpectedEvent, sink),
            },
            State::ResolvingImage => match event {
                Event::Searched { matches } => if should_pull(matches) {
                    let reference = self.reference.render();
                    emit(sink, Level::Info, join("Pulling ", reference.as_str()));
                    assert(sink.deep_view() =~= old(sink).deep_view() + made.log);
                    let tag = match &self.reference.tag {
                        Some(tag) => Some(tag.clone()),
                        None => None,
                    };
                    (State::Pulling, Action::PullImage { from_image: self.reference.name.clone(), tag })
                } else {
                    begin(self.config, 0, sink)
                },
                Event::Failed { cause } => fail(BackupError::RuntimeOperation { cause }, sink),
                _ => fail(BackupError::UnexpectedEvent, sink),
            },
            State::Pulling => match event {
                Event::Pulled => begin(self.config, 0, sink),
                Event::Failed { cause } => fail(BackupError::RuntimeOperation { cause }, sink),
                _ => fail(BackupError::UnexpectedEvent, sink),
            },
            State::BackingUpProject { index, step } => self.backup_project(
                index,
                step,
                event,
                timestamp,
                sink,
            ),
            State::Done => {
                assert(sink.deep_view() =~= old(sink).deep_view() + made.log);
                (State::Done, Action::Finish)
            },
            State::Failed { error } => {
                assert(sink.deep_view() =~= old(sink).deep_view() + made.log);
                (State::Failed { error: error.duplicate() }, Action::Abort { error })
            },
        };
        self.state = out.0;
        out.1
    }

    /// Makes the move that answers `event` and says what is to be done next.
    /// Where the move writes the command of a project, the clock is read,
    /// once, for the names of the archives.
    pub fn process(&mut self, event: Event, sink: &mut Vec<Diagnostic>) -> (action: Action)
        requires
            old(self).wf(),
        ensures
            final(self).wf(),
            final(self).config() == old(self).config(),
            valid_state(final(self).config(), final(self).state()),
            exists|timestamp: Seq<char>|
                follows(
                    #[trigger] transition(old(self).config(), old(self).state(), event@, timestamp),
                    final(self).state(),
                    action@,
                    old(sink).deep_view(),
                    final(sink).deep_view(),
                ),
    {
        let timestamp = match &event {
            Event::Inspected { .. } => current_timestamp(),
            _ => String::new(),
        };
        self.process_at(event, timestamp.as_str(), sink)
    }
}


} // verus!
