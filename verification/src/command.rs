use crate::config::{BackupConfig, ProjectView};
use crate::mounts::{DescriptorView, MountDescriptor, MountTable};
use vstd::prelude::*;
use vstd::seq_lib::{to_multiset_build, to_multiset_contains, to_multiset_len, to_multiset_remove};
use vstd::string::*;

verus! {

/// What joins the commands of the single mounts: the next one runs only
/// where the one before it succeeded.
pub open spec fn separator() -> Seq<char> {
    " && "@
}

/// The archive command of a mount where the project names no command of
/// its own: `tar cf /backup/<service>_<key>_<timestamp>.tar .`
pub open spec fn archive_command(
    service: Seq<char>,
    key: Seq<char>,
    timestamp: Seq<char>,
) -> Seq<char> {
    "tar cf /backup/"@ + service + "_"@ + key + "_"@ + timestamp + ".tar ."@
}

/// What is run for one mount: a change into its destination, then the
/// project's own command or else the archive command.
pub open spec fn mount_command(
    project: ProjectView,
    entry: DescriptorView,
    timestamp: Seq<char>,
) -> Seq<char> {
    "cd "@ + entry.destination + separator() + match project.backup_command {
        Some(command) => command,
        None => archive_command(project.service, entry.key, timestamp),
    }
}

/// The commands of the single mounts, in the order of the entries.
pub open spec fn sub_commands(
    project: ProjectView,
    entries: Seq<DescriptorView>,
    timestamp: Seq<char>,
) -> Seq<Seq<char>> {
    Seq::new(entries.len(), |i: int| mount_command(project, entries[i], timestamp))
}

/// Commands joined by the separator. No command gives the empty text.
pub open spec fn chained(commands: Seq<Seq<char>>) -> Seq<char>
    decreases commands.len(),
{
    if commands.len() == 0 {
        Seq::empty()
    } else if commands.len() == 1 {
        commands[0]
    } else {
        chained(commands.drop_last()) + separator() + commands.last()
    }
}

/// What the helper container of a project runs: the commands of all mounts
/// in their order, joined by the separator.
pub open spec fn backup_command(
    project: ProjectView,
    entries: Seq<DescriptorView>,
    timestamp: Seq<char>,
) -> Seq<char> {
    chained(sub_commands(project, entries, timestamp))
}

/// With a command of its own, what a project runs does not depend on the
/// time.
pub proof fn lemma_override_ignores_time(
    project: ProjectView,
    entries: Seq<DescriptorView>,
    first: Seq<char>,
    second: Seq<char>,
)
    requires
        project.backup_command is Some,
    ensures
        backup_command(project, entries, first) == backup_command(project, entries, second),
{
    assert(sub_commands(project, entries, first) =~= sub_commands(project, entries, second));
}

/// The order of the mounts decides the order of their commands and nothing
/// else: the same mounts in another order give the same commands, each as
/// often as before.
pub proof fn lemma_sub_commands_order_free(
    project: ProjectView,
    first: Seq<DescriptorView>,
    second: Seq<DescriptorView>,
    timestamp: Seq<char>,
)
    requires
        first.to_multiset() == second.to_multiset(),
    ensures
        sub_commands(project, first, timestamp).to_multiset() == sub_commands(
            project,
            second,
            timestamp,
        ).to_multiset(),
    decreases first.len(),
{
    broadcast use vstd::multiset::group_multiset_axioms;

    to_multiset_len(first);
    to_multiset_len(second);
    let first_commands = sub_commands(project, first, timestamp);
    let second_commands = sub_commands(project, second, timestamp);
    if first.len() == 0 {
        assert(first_commands =~= second_commands);
    } else {
        let entry = first.last();
        let command = mount_command(project, entry, timestamp);
        let rest = first.drop_last();
        assert(first =~= rest.push(entry));
        to_multiset_build(rest, entry);
        to_multiset_contains(first, entry);
        to_multiset_contains(second, entry);
        assert(first[first.len() - 1] == entry);
        assert(second.contains(entry));
        let at = choose|j: int| 0 <= j < second.len() && second[j] == entry;
        let others = second.remove(at);
        to_multiset_remove(second, at);
        assert(rest.to_multiset() =~= others.to_multiset());
        lemma_sub_commands_order_free(project, rest, others, timestamp);
        let rest_commands = sub_commands(project, rest, timestamp);
        let other_commands = sub_commands(project, others, timestamp);
        assert(first_commands =~= rest_commands.push(command));
        to_multiset_build(rest_commands, command);
        assert(second_commands.remove(at) =~= other_commands);
        to_multiset_remove(second_commands, at);
        assert(second_commands[at] == command);
        to_multiset_contains(second_commands, command);
        assert(second_commands.to_multiset() =~= other_commands.to_multiset().insert(command));
    }
}

/// Calls `chrono::Utc::now` and writes the time it gives with
/// `DateTime::to_rfc3339`. The text depends on the clock, so nothing is
/// claimed of it.
#[verifier::external_body]
pub(crate) fn current_timestamp() -> (timestamp: String) {
    chrono::Utc::now().to_rfc3339()
}

/// Writes the command for one mount.
fn synthesize_mount(
    backup_config: &BackupConfig,
    entry: &MountDescriptor,
    timestamp: &str,
) -> (command: String)
    ensures
        command@ == mount_command(backup_config@, entry@, timestamp@),
{
    let mut command = "cd ".to_owned();
    command.append(entry.destination.as_str());
    command.append(" && ");
    match &backup_config.backup_command {
        Some(own) => {
            command.append(own.as_str());
        },
        None => {
            command.append("tar cf /backup/");
            command.append(backup_config.service.as_str());
            command.append("_");
            command.append(entry.key.as_str());
            command.append("_");
            command.append(timestamp);
            command.append(".tar .");
            assert(command@ =~= mount_command(backup_config@, entry@, timestamp@));
        },
    }
    command
}

/// Writes the command that the helper container runs for a project, with
/// the given time in the names of the archives.
pub fn synthesize(
    backup_config: &BackupConfig,
    mounts: &MountTable,
    timestamp: &str,
) -> (command: String)
    ensures
        command@ == backup_command(backup_config@, mounts.entries(), timestamp@),
{
    let mut command = String::new();
    let count = mounts.len();
    let mut index: usize = 0;
    while index < count
        invariant
            index <= count,
            count == mounts.entries().len(),
            command@ == backup_command(
                backup_config@,
                mounts.entries().take(index as int),
                timestamp@,
            ),
        decreases count - index,
    {
        let part = synthesize_mount(backup_config, mounts.entry(index), timestamp);
        proof {
            let entries = mounts.entries();
            let so_far = sub_commands(backup_config@, entries.take(index + 1), timestamp@);
            assert(so_far.drop_last() =~= sub_commands(
                backup_config@,
                entries.take(index as int),
                timestamp@,
            ));
            assert(so_far.last() == part@);
        }
        if index > 0 {
            command.append(" && ");
        }
        command.append(part.as_str());
        assert(command@ =~= backup_command(
            backup_config@,
            mounts.entries().take(index + 1),
            timestamp@,
        ));
        index = index + 1;
    }
    assert(mounts.entries().take(index as int) =~= mounts.entries());
    command
}

/// Writes the command that the helper container runs for a project, with
/// the current time in the names of the archives. The time is read once,
/// so all archives of the project carry the same.
pub fn build_backup_command(backup_config: &BackupConfig, mounts: &MountTable) -> (command: String)
    ensures
        exists|timestamp: Seq<char>|
            command@ == #[trigger] backup_command(backup_config@, mounts.entries(), timestamp),
{
    let timestamp = current_timestamp();
    synthesize(backup_config, mounts, timestamp.as_str())
}

} // verus!
