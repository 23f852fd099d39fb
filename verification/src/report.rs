use vstd::prelude::*;
use vstd::string::*;

verus! {

/// Why a backup pass stopped.
#[derive(Debug, Clone, PartialEq, Eq)]
pub enum BackupError {
    /// The configuration could not be loaded.
    Config { cause: String },
    /// The container runtime could not be reached.
    RuntimeConnection { cause: String },
    /// A call to the container runtime failed.
    RuntimeOperation { cause: String },
    /// The compose tool knows no container for the service.
    ContainerNotFound { service: String, docker_compose: String },
    /// The compose tool could not be run, failed, or wrote no text.
    Process { cause: String },
    /// The driver handed over an event that does not answer the pending action.
    UnexpectedEvent,
}

/// A `BackupError` as mathematical text.
pub enum ErrorView {
    Config { cause: Seq<char> },
    RuntimeConnection { cause: Seq<char> },
    RuntimeOperation { cause: Seq<char> },
    ContainerNotFound { service: Seq<char>, docker_compose: Seq<char> },
    Process { cause: Seq<char> },
    UnexpectedEvent,
}

impl View for BackupError {
    type V = ErrorView;

    open spec fn view(&self) -> ErrorView {
        match self {
            BackupError::Config { cause } => ErrorView::Config { cause: cause@ },
            BackupError::RuntimeConnection { cause } => ErrorView::RuntimeConnection {
                cause: cause@,
            },
            BackupError::RuntimeOperation { cause } => ErrorView::RuntimeOperation {
                cause: cause@,
            },
            BackupError::ContainerNotFound { service, docker_compose } => {
                ErrorView::ContainerNotFound { service: service@, docker_compose: docker_compose@ }
            },
            BackupError::Process { cause } => ErrorView::Process { cause: cause@ },
            BackupError::UnexpectedEvent => ErrorView::UnexpectedEvent,
        }
    }
}

/// How much a diagnostic matters.
#[derive(Debug, Clone, Copy, PartialEq, Eq, Structural)]
pub enum Level {
    Error,
    Warning,
    Info,
    Debug,
}

/// One line for the log.
#[derive(Debug, Clone, PartialEq, Eq)]
pub struct Diagnostic {
    pub level: Level,
    pub message: String,
}

/// A `Diagnostic` as mathematical text.
pub struct DiagnosticView {
    pub level: Level,
    pub message: Seq<char>,
}

impl View for Diagnostic {
    type V = DiagnosticView;

    open spec fn view(&self) -> DiagnosticView {
        DiagnosticView { level: self.level, message: self.message@ }
    }
}

impl DeepView for Diagnostic {
    type V = DiagnosticView;

    open spec fn deep_view(&self) -> DiagnosticView {
        self@
    }
}

/// The text that describes an error in the log.
pub open spec fn error_message(error: ErrorView) -> Seq<char> {
    match error {
        ErrorView::Config { cause } => cause,
        ErrorView::RuntimeConnection { cause } => cause,
        ErrorView::RuntimeOperation { cause } => cause,
        ErrorView::ContainerNotFound { service, docker_compose } => {
            "Unable to extract a container id for service: "@ + service + " in "@ + docker_compose
                + "/docker-compose.yml"@
        },
        ErrorView::Process { cause } => cause,
        ErrorView::UnexpectedEvent => "Unexpected event for the pending action"@,
    }
}

/// The log line of an error.
pub open spec fn error_diagnostic(error: ErrorView) -> DiagnosticView {
    DiagnosticView { level: Level::Error, message: error_message(error) }
}

impl BackupError {
    /// Describes the error for the log.
    pub fn message(&self) -> (text: String)
        ensures
            text@ == error_message(self@),
    {
        match self {
            BackupError::Config { cause } => cause.clone(),
            BackupError::RuntimeConnection { cause } => cause.clone(),
            BackupError::RuntimeOperation { cause } => cause.clone(),
            BackupError::ContainerNotFound { service, docker_compose } => {
                let mut text = "Unable to extract a container id for service: ".to_owned();
                text.append(service.as_str());
                text.append(" in ");
                text.append(docker_compose.as_str());
                text.append("/docker-compose.yml");
                text
            },
            BackupError::Process { cause } => cause.clone(),
            BackupError::UnexpectedEvent => "Unexpected event for the pending action".to_owned(),
        }
    }

    /// A second value of the same error.
    pub fn duplicate(&self) -> (copy: BackupError)
        ensures
            copy@ == self@,
    {
        match self {
            BackupError::Config { cause } => BackupError::Config { cause: cause.clone() },
            BackupError::RuntimeConnection { cause } => BackupError::RuntimeConnection {
                cause: cause.clone(),
            },
            BackupError::RuntimeOperation { cause } => BackupError::RuntimeOperation {
                cause: cause.clone(),
            },
            BackupError::ContainerNotFound { service, docker_compose } => {
                BackupError::ContainerNotFound {
                    service: service.clone(),
                    docker_compose: docker_compose.clone(),
                }
            },
            BackupError::Process { cause } => BackupError::Process { cause: cause.clone() },
            BackupError::UnexpectedEvent => BackupError::UnexpectedEvent,
        }
    }
}

/// Appends one line to the log.
pub fn emit(sink: &mut Vec<Diagnostic>, level: Level, message: String)
    ensures
        final(sink).deep_view() == old(sink).deep_view().push(
            DiagnosticView { level, message: message@ },
        ),
{
    sink.push(Diagnostic { level, message });
    assert(sink.deep_view() =~= old(sink).deep_view().push(
        DiagnosticView { level, message: message@ },
    ));
}

/// Records an error in the log, as one line of level `Error`.
pub fn report(sink: &mut Vec<Diagnostic>, err: &BackupError)
    ensures
        final(sink).deep_view() == old(sink).deep_view().push(error_diagnostic(err@)),
{
    let message = err.message();
    emit(sink, Level::Error, message);
}

} // verus!
