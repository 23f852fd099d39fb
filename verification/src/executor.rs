use crate::config::{BackupConfig, Config};
use vstd::prelude::*;
use vstd::string::*;

verus! {

/// The helper container that archives the volumes of one service.
#[derive(Debug, Clone, PartialEq, Eq)]
pub struct HelperContainer {
    pub name: String,
    pub image: String,
    pub command: Vec<String>,
    pub binds: Vec<String>,
    pub volumes_from: Vec<String>,
    pub auto_remove: bool,
}

/// A `HelperContainer` as mathematical text.
pub struct HelperContainerView {
    pub name: Seq<char>,
    pub image: Seq<char>,
    pub command: Seq<Seq<char>>,
    pub binds: Seq<Seq<char>>,
    pub volumes_from: Seq<Seq<char>>,
    pub auto_remove: bool,
}

impl View for HelperContainer {
    type V = HelperContainerView;

    open spec fn view(&self) -> HelperContainerView {
        HelperContainerView {
            name: self.name@,
            image: self.image@,
            command: self.command.deep_view(),
            binds: self.binds.deep_view(),
            volumes_from: self.volumes_from.deep_view(),
            auto_remove: self.auto_remove,
        }
    }
}

/// The name of the helper container of a service.
pub open spec fn helper_name(service: Seq<char>) -> Seq<char> {
    service + "-backup"@
}

/// The bind mount that shows the backup directory of the host inside the
/// helper container.
pub open spec fn backup_bind(backup_directory: Seq<char>) -> Seq<char> {
    backup_directory + ":/backup"@
}

/// The helper container of a service: it runs `command` in a shell of the
/// image `reference`, sees the backup directory under `/backup` and the
/// volumes of the service's container at their own places, and is removed
/// when it exits.
pub open spec fn helper_container(
    backup_directory: Seq<char>,
    service: Seq<char>,
    container_id: Seq<char>,
    reference: Seq<char>,
    command: Seq<char>,
) -> HelperContainerView {
    HelperContainerView {
        name: helper_name(service),
        image: reference,
        command: seq!["bash"@, "-c"@, command],
        binds: seq![backup_bind(backup_directory)],
        volumes_from: seq![container_id],
        auto_remove: true,
    }
}

/// Writes the name of the helper container of a service.
pub fn name_helper(backup_config: &BackupConfig) -> (name: String)
    ensures
        name@ == helper_name(backup_config@.service),
{
    let mut name = backup_config.service.clone();
    name.append("-backup");
    name
}

/// Describes the helper container that backs up one service.
pub fn describe_helper(
    config: &Config,
    backup_config: &BackupConfig,
    container_id: &str,
    reference: &str,
    command: &str,
) -> (container: HelperContainer)
    ensures
        container@ == helper_container(
            config@.backup_directory,
            backup_config@.service,
            container_id@,
            reference@,
            command@,
        ),
{
    let mut bind = config.backup_directory.clone();
    bind.append(":/backup");
    let mut binds: Vec<String> = Vec::new();
    binds.push(bind);
    let mut volumes_from: Vec<String> = Vec::new();
    volumes_from.push(container_id.to_owned());
    let mut shell: Vec<String> = Vec::new();
    shell.push("bash".to_owned());
    shell.push("-c".to_owned());
    shell.push(command.to_owned());
    assert(binds.deep_view() =~= seq![backup_bind(config@.backup_directory)]);
    assert(volumes_from.deep_view() =~= seq![container_id@]);
    assert(shell.deep_view() =~= seq!["bash"@, "-c"@, command@]);
    HelperContainer {
        name: name_helper(backup_config),
        image: reference.to_owned(),
        command: shell,
        binds,
        volumes_from,
        auto_remove: true,
    }
}

} // verus!
