use crate::config::{BackupConfig, ProjectView};
use crate::report::{BackupError, ErrorView};
use crate::text::{
    first_line, lemma_leading_blanks, lemma_position, lemma_trimmed_ends, position,
    take_first_line, trim, trimmed, whitespace,
};
use vstd::prelude::*;
use vstd::string::*;
use vstd::utf8::*;

verus! {

/// The call of the compose tool that lists a service's container.
#[derive(Debug, Clone, PartialEq, Eq)]
pub struct ComposeCommand {
    pub program: String,
    pub arguments: Vec<String>,
    pub directory: String,
}

/// A `ComposeCommand` as mathematical text.
pub struct ComposeCommandView {
    pub program: Seq<char>,
    pub arguments: Seq<Seq<char>>,
    pub directory: Seq<char>,
}

impl View for ComposeCommand {
    type V = ComposeCommandView;

    open spec fn view(&self) -> ComposeCommandView {
        ComposeCommandView {
            program: self.program@,
            arguments: self.arguments.deep_view(),
            directory: self.directory@,
        }
    }
}

/// What came back from a run of the compose tool.
#[derive(Debug, Clone, PartialEq, Eq)]
pub struct ProcessOutput {
    /// Whether the tool exited with status zero.
    pub success: bool,
    /// What it wrote to its standard output.
    pub stdout: Vec<u8>,
}

/// A `ProcessOutput` as a mathematical value.
pub struct OutputView {
    pub success: bool,
    pub stdout: Seq<u8>,
}

impl View for ProcessOutput {
    type V = OutputView;

    open spec fn view(&self) -> OutputView {
        OutputView { success: self.success, stdout: self.stdout@ }
    }
}

/// The compose call for a project: `docker-compose ps --quiet <service>`,
/// run in the project's compose directory.
pub open spec fn compose_command(project: ProjectView) -> ComposeCommandView {
    ComposeCommandView {
        program: "docker-compose"@,
        arguments: seq!["ps"@, "--quiet"@, project.service],
        directory: project.docker_compose,
    }
}

/// The message with which `std::str::from_utf8` turns down `bytes` that are
/// not UTF-8.
pub uninterp spec fn utf8_error_text(bytes: Seq<u8>) -> Seq<char>;

/// The cause that is given where the compose tool exits with a failure.
pub open spec fn exit_failure() -> Seq<char> {
    "docker-compose exited with a failure status"@
}

/// The container identifier in the text that the compose tool wrote: the
/// first line of the trimmed text, or none where nothing is left of it.
pub open spec fn container_id(text: Seq<char>) -> Option<Seq<char>> {
    let identifiers = trimmed(text);
    if identifiers.len() == 0 {
        None
    } else {
        Some(first_line(identifiers))
    }
}

/// The container of a project, as it follows from the compose tool's output.
pub open spec fn located(project: ProjectView, output: OutputView) -> Result<
    Seq<char>,
    ErrorView,
> {
    if !output.success {
        Err(ErrorView::Process { cause: exit_failure() })
    } else if !valid_utf8(output.stdout) {
        Err(ErrorView::Process { cause: utf8_error_text(output.stdout) })
    } else {
        match container_id(decode_utf8(output.stdout)) {
            Some(id) => Ok(id),
            None => Err(
                ErrorView::ContainerNotFound {
                    service: project.service,
                    docker_compose: project.docker_compose,
                },
            ),
        }
    }
}

/// A container identifier that is found is not empty, holds no line feed,
/// and starts with no white space.
pub proof fn lemma_container_id_shape(text: Seq<char>)
    requires
        container_id(text) is Some,
    ensures
        container_id(text)->0.len() > 0,
        !container_id(text)->0.contains('\n'),
        !whitespace(container_id(text)->0[0]),
{
    let identifiers = trimmed(text);
    lemma_trimmed_ends(text);
    lemma_position(identifiers, '\n');
    let id = first_line(identifiers);
    assert(whitespace('\n'));
    assert(identifiers.first() != '\n');
    assert(position(identifiers, '\n') > 0);
    assert(id[0] == identifiers[0]);
    assert forall|i: int| 0 <= i < id.len() implies id[i] != '\n' by {
        assert(id[i] == identifiers[i]);
    }
}

/// Where the compose tool succeeds and writes white space only, or nothing
/// at all, no container is found, and the error names the service and its
/// compose directory.
pub proof fn lemma_blank_output_not_found(project: ProjectView, output: OutputView)
    requires
        output.success,
        valid_utf8(output.stdout),
        forall|i: int|
            0 <= i < decode_utf8(output.stdout).len() ==> whitespace(
                #[trigger] decode_utf8(output.stdout)[i],
            ),
    ensures
        located(project, output) == Err::<Seq<char>, ErrorView>(
            ErrorView::ContainerNotFound {
                service: project.service,
                docker_compose: project.docker_compose,
            },
        ),
{
    let text = decode_utf8(output.stdout);
    lemma_leading_blanks(text, text.len() as int);
}

/// Where the compose tool succeeds and writes nothing, no container is found.
pub proof fn lemma_empty_output_not_found(project: ProjectView)
    ensures
        located(project, OutputView { success: true, stdout: Seq::empty() }) == Err::<
            Seq<char>,
            ErrorView,
        >(
            ErrorView::ContainerNotFound {
                service: project.service,
                docker_compose: project.docker_compose,
            },
        ),
{
    let stdout = Seq::<u8>::empty();
    assert(valid_utf8(stdout));
    assert(decode_utf8(stdout).len() == 0);
    lemma_blank_output_not_found(project, OutputView { success: true, stdout });
}

/// The result of a lookup as mathematical text.
pub open spec fn lookup_view(id: Result<String, BackupError>) -> Result<Seq<char>, ErrorView> {
    match id {
        Ok(text) => Ok(text@),
        Err(error) => Err(error@),
    }
}

/// Calls `std::str::from_utf8`. Bytes that are UTF-8 come back as the text
/// that they encode; for all others the error's message comes back, under
/// the name `utf8_error_text`.
#[verifier::external_body]
fn decode_text(bytes: &[u8]) -> (decoded: Result<&str, String>)
    ensures
        valid_utf8(bytes@) ==> decoded is Ok && decoded->Ok_0.spec_bytes() == bytes@,
        !valid_utf8(bytes@) ==> decoded is Err && decoded->Err_0@ == utf8_error_text(bytes@),
{
    match std::str::from_utf8(bytes) {
        Ok(text) => Ok(text),
        Err(error) => Err(error.to_string()),
    }
}

/// Describes the compose call that finds the container of a project.
pub fn locate_command(backup_config: &BackupConfig) -> (command: ComposeCommand)
    ensures
        command@ == compose_command(backup_config@),
{
    let mut arguments: Vec<String> = Vec::new();
    arguments.push("ps".to_owned());
    arguments.push("--quiet".to_owned());
    arguments.push(backup_config.service.clone());
    assert(arguments.deep_view() =~= seq!["ps"@, "--quiet"@, backup_config@.service]);
    ComposeCommand {
        program: "docker-compose".to_owned(),
        arguments,
        directory: backup_config.docker_compose.clone(),
    }
}

/// Reads the container identifier of a project from what the compose tool
/// gave back.
pub fn extract_container_id(
    backup_config: &BackupConfig,
    output: &ProcessOutput,
) -> (id: Result<String, BackupError>)
    ensures
        lookup_view(id) == located(backup_config@, output@),
{
    if !output.success {
        return Err(
            BackupError::Process { cause: "docker-compose exited with a failure status".to_owned() },
        );
    }
    match decode_text(output.stdout.as_slice()) {
        Err(cause) => Err(BackupError::Process { cause }),
        Ok(text) => {
            proof {
                encode_utf8_decode_utf8(text@);
            }
            let container_ids = trim(text);
            if container_ids.as_str().unicode_len() == 0 {
                Err(
                    BackupError::ContainerNotFound {
                        service: backup_config.service.clone(),
                        docker_compose: backup_config.docker_compose.clone(),
                    },
                )
            } else {
                Ok(take_first_line(container_ids.as_str()))
            }
        },
    }
}

} // verus!
