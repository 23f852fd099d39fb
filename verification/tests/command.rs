use compose_backup::command::{build_backup_command, synthesize};
use compose_backup::config::BackupConfig;
use compose_backup::mounts::{retrieve_mount_destinations, Mount, MountTable};

fn project(service: &str, backup_command: Option<&str>) -> BackupConfig {
    BackupConfig {
        service: String::from(service),
        docker_compose: String::from("/proj"),
        path: String::from("/proj"),
        backup_command: backup_command.map(String::from),
    }
}

fn table(mounts: &[(&str, &str)]) -> MountTable {
    let mut all = MountTable::new();
    for (key, destination) in mounts {
        all.insert(String::from(*key), String::from(*destination));
    }
    all
}

#[test]
fn override_runs_once_in_each_mount() {
    let mounts = table(&[("data", "/data"), ("config", "/config")]);
    assert_eq!(
        synthesize(&project("web", Some("echo hi")), &mounts, "2024-01-01T00:00:00+00:00"),
        "cd /data && echo hi && cd /config && echo hi"
    );
}

#[test]
fn override_in_the_other_order_gives_the_same_parts() {
    let forward = table(&[("data", "/data"), ("config", "/config")]);
    let backward = table(&[("config", "/config"), ("data", "/data")]);
    let web = project("web", Some("echo hi"));
    let first = synthesize(&web, &forward, "");
    let second = synthesize(&web, &backward, "");
    assert_eq!(second, "cd /config && echo hi && cd /data && echo hi");
    let mut first_parts: Vec<&str> = first.split(" && cd ").collect();
    let mut second_parts: Vec<&str> = second.split(" && cd ").collect();
    first_parts.sort_by_key(|part| part.trim_start_matches("cd "));
    second_parts.sort_by_key(|part| part.trim_start_matches("cd "));
    let strip = |parts: Vec<&str>| -> Vec<String> {
        parts.iter().map(|part| part.trim_start_matches("cd ").to_string()).collect()
    };
    assert_eq!(strip(first_parts), strip(second_parts));
}

#[test]
fn archive_is_named_by_service_key_and_time() {
    let mounts = table(&[("dbdata", "/data")]);
    assert_eq!(
        synthesize(&project("db", None), &mounts, "2024-01-01T00:00:00+00:00"),
        "cd /data && tar cf /backup/db_dbdata_2024-01-01T00:00:00+00:00.tar ."
    );
}

#[test]
fn unnamed_mount_is_archived_under_its_place() {
    let mounts = retrieve_mount_destinations(&vec![Mount {
        name: None,
        destination: String::from("/data"),
    }]);
    assert_eq!(
        synthesize(&project("db", None), &mounts, "2024-01-01T00:00:00+00:00"),
        "cd /data && tar cf /backup/db_0_2024-01-01T00:00:00+00:00.tar ."
    );
}

#[test]
fn archives_of_one_project_share_the_time() {
    let mounts = table(&[("a", "/a"), ("b", "/b"), ("c", "/c")]);
    assert_eq!(
        synthesize(&project("svc", None), &mounts, "T"),
        "cd /a && tar cf /backup/svc_a_T.tar . && cd /b && tar cf /backup/svc_b_T.tar . && cd /c && tar cf /backup/svc_c_T.tar ."
    );
}

#[test]
fn no_mounts_give_the_empty_command() {
    assert_eq!(synthesize(&project("db", None), &MountTable::new(), "T"), "");
    assert_eq!(synthesize(&project("db", Some("echo hi")), &MountTable::new(), "T"), "");
    assert_eq!(build_backup_command(&project("db", None), &MountTable::new()), "");
}

#[test]
fn command_with_the_clock_carries_one_rfc3339_time() {
    let mounts = table(&[("a", "/a"), ("b", "/b")]);
    let before = chrono::Utc::now();
    let command = build_backup_command(&project("svc", None), &mounts);
    let after = chrono::Utc::now();
    let parts: Vec<&str> = command.split(" && ").collect();
    assert_eq!(parts.len(), 4);
    assert_eq!(parts[0], "cd /a");
    assert_eq!(parts[2], "cd /b");
    let first = parts[1].strip_prefix("tar cf /backup/svc_a_").unwrap().strip_suffix(".tar .").unwrap();
    let second = parts[3].strip_prefix("tar cf /backup/svc_b_").unwrap().strip_suffix(".tar .").unwrap();
    assert_eq!(first, second);
    let time = chrono::DateTime::parse_from_rfc3339(first).unwrap();
    assert_eq!(time.offset().local_minus_utc(), 0);
    assert!(before <= time && time <= after);
    assert_eq!(command, synthesize(&project("svc", None), &mounts, first));
}

#[test]
fn override_with_the_clock_does_not_name_the_time() {
    let mounts = table(&[("a", "/a"), ("b", "/b")]);
    let web = project("web", Some("echo hi"));
    assert_eq!(build_backup_command(&web, &mounts), "cd /a && echo hi && cd /b && echo hi");
    assert_eq!(build_backup_command(&web, &mounts), synthesize(&web, &mounts, "whenever"));
}
