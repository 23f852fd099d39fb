use compose_backup::backup::{Action, Backup, Event, State, Step};
use compose_backup::config::{BackupConfig, Config};
use compose_backup::executor::HelperContainer;
use compose_backup::image::ImageReference;
use compose_backup::locator::{ComposeCommand, ProcessOutput};
use compose_backup::mounts::Mount;
use compose_backup::report::{BackupError, Diagnostic, Level};

fn project(service: &str, directory: &str, backup_command: Option<&str>) -> BackupConfig {
    BackupConfig {
        service: String::from(service),
        docker_compose: String::from(directory),
        path: String::from(directory),
        backup_command: backup_command.map(String::from),
    }
}

fn config(image: Option<&str>, projects: Vec<BackupConfig>) -> Config {
    Config {
        backup_directory: String::from("/srv/backups"),
        projects,
        image: image.map(String::from),
    }
}

fn compose(service: &str, directory: &str) -> Action {
    Action::RunCompose {
        command: ComposeCommand {
            program: String::from("docker-compose"),
            arguments: vec![String::from("ps"), String::from("--quiet"), String::from(service)],
            directory: String::from(directory),
        },
    }
}

fn located(text: &str) -> Event {
    Event::Located { output: ProcessOutput { success: true, stdout: text.as_bytes().to_vec() } }
}

fn inspected(mounts: &[(Option<&str>, &str)]) -> Event {
    Event::Inspected {
        mounts: mounts
            .iter()
            .map(|(name, destination)| Mount {
                name: name.map(String::from),
                destination: String::from(*destination),
            })
            .collect(),
    }
}

fn line(level: Level, message: &str) -> Diagnostic {
    Diagnostic { level, message: String::from(message) }
}

const TIME: &str = "2024-01-01T00:00:00+00:00";

#[test]
fn one_project_is_backed_up_from_start_to_finish() {
    let config = config(None, vec![project("db", "/proj", None)]);
    let mut sink = Vec::new();
    let mut backup = Backup::new(&config);
    assert_eq!(backup.current_state(), &State::Idle);
    assert_eq!(backup.reference(), &ImageReference { name: String::from("ubuntu"), tag: None });

    let action = backup.process_at(Event::Start, TIME, &mut sink);
    assert_eq!(action, Action::SearchImages { term: String::from("ubuntu") });
    assert_eq!(backup.current_state(), &State::ResolvingImage);

    let action = backup.process_at(Event::Searched { matches: 4 }, TIME, &mut sink);
    assert_eq!(action, compose("db", "/proj"));
    assert_eq!(backup.current_state(), &State::BackingUpProject { index: 0, step: Step::Locating });

    let action = backup.process_at(located("abc123\n"), TIME, &mut sink);
    assert_eq!(
        action,
        Action::InspectContainer { container_id: String::from("abc123"), size: false }
    );

    let action = backup.process_at(inspected(&[(Some("dbdata"), "/var/lib/data")]), TIME, &mut sink);
    let command = "cd /var/lib/data && tar cf /backup/db_dbdata_2024-01-01T00:00:00+00:00.tar .";
    assert_eq!(
        action,
        Action::CreateContainer {
            container: HelperContainer {
                name: String::from("db-backup"),
                image: String::from("ubuntu"),
                command: vec![String::from("bash"), String::from("-c"), String::from(command)],
                binds: vec![String::from("/srv/backups:/backup")],
                volumes_from: vec![String::from("abc123")],
                auto_remove: true,
            },
        }
    );

    let action = backup.process_at(Event::Created, TIME, &mut sink);
    assert_eq!(action, Action::StartContainer { name: String::from("db-backup") });
    assert!(!backup.is_finished());

    let action = backup.process_at(Event::Started, TIME, &mut sink);
    assert_eq!(action, Action::Finish);
    assert_eq!(backup.current_state(), &State::Done);
    assert!(backup.is_finished());

    assert_eq!(
        sink,
        vec![
            line(Level::Info, "Backing up service db"),
            line(Level::Debug, "Image reference used ubuntu"),
            line(Level::Debug, &format!("Backup command used {}", command)),
            line(Level::Info, "Service db backup complete, available in /srv/backups"),
        ]
    );
}

#[test]
fn the_clock_names_the_archives_of_a_pass() {
    let config = config(None, vec![project("db", "/proj", None)]);
    let mut sink = Vec::new();
    let mut backup = Backup::new(&config);
    backup.process(Event::Start, &mut sink);
    backup.process(Event::Searched { matches: 1 }, &mut sink);
    backup.process(located("abc123"), &mut sink);
    let before = chrono::Utc::now();
    let action = backup.process(inspected(&[(Some("dbdata"), "/var/lib/data")]), &mut sink);
    let after = chrono::Utc::now();
    let container = match action {
        Action::CreateContainer { container } => container,
        other => panic!("unexpected action {:?}", other),
    };
    assert_eq!(container.image, "ubuntu");
    assert_eq!(container.binds, vec![String::from("/srv/backups:/backup")]);
    assert_eq!(container.volumes_from, vec![String::from("abc123")]);
    assert!(container.auto_remove);
    assert_eq!(container.command.len(), 3);
    let time = container.command[2]
        .strip_prefix("cd /var/lib/data && tar cf /backup/db_dbdata_")
        .unwrap()
        .strip_suffix(".tar .")
        .unwrap();
    let time = chrono::DateTime::parse_from_rfc3339(time).unwrap();
    assert!(before <= time && time <= after);
    assert_eq!(backup.process(Event::Created, &mut sink), Action::StartContainer {
        name: String::from("db-backup"),
    });
    assert_eq!(backup.process(Event::Started, &mut sink), Action::Finish);
}

#[test]
fn image_is_pulled_when_the_search_finds_nothing() {
    let config = config(Some("alpine:3.19"), vec![project("web", "/web", None)]);
    let mut sink = Vec::new();
    let mut backup = Backup::new(&config);
    assert_eq!(
        backup.process_at(Event::Start, TIME, &mut sink),
        Action::SearchImages { term: String::from("alpine:3.19") }
    );
    assert_eq!(
        backup.process_at(Event::Searched { matches: 0 }, TIME, &mut sink),
        Action::PullImage { from_image: String::from("alpine"), tag: Some(String::from("3.19")) }
    );
    assert_eq!(backup.current_state(), &State::Pulling);
    assert_eq!(backup.process_at(Event::Pulled, TIME, &mut sink), compose("web", "/web"));
    assert_eq!(
        sink,
        vec![line(Level::Info, "Pulling alpine:3.19"), line(Level::Info, "Backing up service web")]
    );
}

#[test]
fn image_without_tag_is_pulled_without_tag() {
    let config = config(None, Vec::new());
    let mut sink = Vec::new();
    let mut backup = Backup::new(&config);
    backup.process_at(Event::Start, TIME, &mut sink);
    assert_eq!(
        backup.process_at(Event::Searched { matches: 0 }, TIME, &mut sink),
        Action::PullImage { from_image: String::from("ubuntu"), tag: None }
    );
}

#[test]
fn image_is_not_pulled_when_the_search_finds_it() {
    let config = config(Some("alpine:3.19"), vec![project("web", "/web", None)]);
    let mut sink = Vec::new();
    let mut backup = Backup::new(&config);
    backup.process_at(Event::Start, TIME, &mut sink);
    assert_eq!(backup.process_at(Event::Searched { matches: 1 }, TIME, &mut sink), compose("web", "/web"));
}

#[test]
fn no_projects_finish_after_the_image_check() {
    let config = config(None, Vec::new());
    let mut sink = Vec::new();
    let mut backup = Backup::new(&config);
    backup.process_at(Event::Start, TIME, &mut sink);
    assert_eq!(backup.process_at(Event::Searched { matches: 2 }, TIME, &mut sink), Action::Finish);
    assert_eq!(backup.current_state(), &State::Done);
    assert!(sink.is_empty());
    assert_eq!(backup.process_at(Event::Started, TIME, &mut sink), Action::Finish);
    assert!(sink.is_empty());
}

#[test]
fn projects_are_backed_up_in_configured_order() {
    let config = config(
        None,
        vec![project("db", "/one", None), project("web", "/two", Some("echo hi"))],
    );
    let mut sink = Vec::new();
    let mut backup = Backup::new(&config);
    backup.process_at(Event::Start, TIME, &mut sink);
    assert_eq!(backup.process_at(Event::Searched { matches: 1 }, TIME, &mut sink), compose("db", "/one"));
    backup.process_at(located("id-one\n"), TIME, &mut sink);
    backup.process_at(inspected(&[(None, "/data")]), TIME, &mut sink);
    backup.process_at(Event::Created, TIME, &mut sink);
    assert_eq!(backup.process_at(Event::Started, TIME, &mut sink), compose("web", "/two"));
    assert_eq!(backup.current_state(), &State::BackingUpProject { index: 1, step: Step::Locating });
    assert_eq!(
        backup.process_at(located("id-two\n"), TIME, &mut sink),
        Action::InspectContainer { container_id: String::from("id-two"), size: false }
    );
    let action = backup.process_at(inspected(&[(None, "/data"), (None, "/config")]), TIME, &mut sink);
    match action {
        Action::CreateContainer { container } => {
            assert_eq!(container.name, "web-backup");
            assert_eq!(container.volumes_from, vec![String::from("id-two")]);
            assert_eq!(container.command[2], "cd /data && echo hi && cd /config && echo hi");
        }
        other => panic!("unexpected action {:?}", other),
    }
    backup.process_at(Event::Created, TIME, &mut sink);
    assert_eq!(backup.process_at(Event::Started, TIME, &mut sink), Action::Finish);
    let services: Vec<&str> = sink
        .iter()
        .filter(|entry| entry.message.starts_with("Backing up service "))
        .map(|entry| entry.message.as_str())
        .collect();
    assert_eq!(services, vec!["Backing up service db", "Backing up service web"]);
}

#[test]
fn missing_container_stops_the_pass() {
    let config = config(None, vec![project("web", "/proj", None), project("db", "/db", None)]);
    let mut sink = Vec::new();
    let mut backup = Backup::new(&config);
    backup.process_at(Event::Start, TIME, &mut sink);
    backup.process_at(Event::Searched { matches: 1 }, TIME, &mut sink);
    let error = BackupError::ContainerNotFound {
        service: String::from("web"),
        docker_compose: String::from("/proj"),
    };
    assert_eq!(
        backup.process_at(located(""), TIME, &mut sink),
        Action::Abort { error: error.clone() }
    );
    assert_eq!(backup.current_state(), &State::Failed { error: error.clone() });
    assert!(backup.is_finished());
    assert_eq!(
        sink.last(),
        Some(&line(
            Level::Error,
            "Unable to extract a container id for service: web in /proj/docker-compose.yml"
        ))
    );
    let logged = sink.len();
    assert_eq!(backup.process_at(located("abc"), TIME, &mut sink), Action::Abort { error: error.clone() });
    assert_eq!(backup.process_at(Event::Start, TIME, &mut sink), Action::Abort { error });
    assert_eq!(sink.len(), logged);
}

#[test]
fn compose_failure_is_a_process_error() {
    let config = config(None, vec![project("web", "/proj", None)]);
    let mut sink = Vec::new();
    let mut backup = Backup::new(&config);
    backup.process_at(Event::Start, TIME, &mut sink);
    backup.process_at(Event::Searched { matches: 1 }, TIME, &mut sink);
    assert_eq!(
        backup.process_at(Event::Failed { cause: String::from("No such file") }, TIME, &mut sink),
        Action::Abort { error: BackupError::Process { cause: String::from("No such file") } }
    );
    assert_eq!(sink.last(), Some(&line(Level::Error, "No such file")));
}

#[test]
fn runtime_failure_stops_at_every_step() {
    let steps: Vec<Vec<Event>> = vec![
        vec![Event::Start],
        vec![Event::Start, Event::Searched { matches: 0 }],
        vec![Event::Start, Event::Searched { matches: 1 }, located("abc")],
        vec![Event::Start, Event::Searched { matches: 1 }, located("abc"), inspected(&[])],
        vec![
            Event::Start,
            Event::Searched { matches: 1 },
            located("abc"),
            inspected(&[]),
            Event::Created,
        ],
    ];
    for events in steps {
        let config = config(None, vec![project("web", "/proj", None)]);
        let mut sink = Vec::new();
        let mut backup = Backup::new(&config);
        for event in events {
            backup.process_at(event, TIME, &mut sink);
        }
        assert!(!backup.is_finished());
        let error = BackupError::RuntimeOperation { cause: String::from("daemon gone") };
        assert_eq!(
            backup.process_at(Event::Failed { cause: String::from("daemon gone") }, TIME, &mut sink),
            Action::Abort { error: error.clone() }
        );
        assert_eq!(backup.current_state(), &State::Failed { error });
        assert_eq!(sink.last(), Some(&line(Level::Error, "daemon gone")));
    }
}

#[test]
fn event_out_of_turn_stops_the_pass() {
    let config = config(None, vec![project("web", "/proj", None)]);
    let mut sink = Vec::new();
    let mut backup = Backup::new(&config);
    assert_eq!(
        backup.process_at(Event::Created, TIME, &mut sink),
        Action::Abort { error: BackupError::UnexpectedEvent }
    );
    let mut backup = Backup::new(&config);
    backup.process_at(Event::Start, TIME, &mut sink);
    backup.process_at(Event::Searched { matches: 1 }, TIME, &mut sink);
    assert_eq!(
        backup.process_at(Event::Started, TIME, &mut sink),
        Action::Abort { error: BackupError::UnexpectedEvent }
    );
    let mut backup = Backup::new(&config);
    assert_eq!(
        backup.process_at(Event::Failed { cause: String::from("early") }, TIME, &mut sink),
        Action::Abort { error: BackupError::UnexpectedEvent }
    );
}

#[test]
fn container_without_mounts_runs_the_empty_command() {
    let config = config(None, vec![project("web", "/proj", None)]);
    let mut sink = Vec::new();
    let mut backup = Backup::new(&config);
    backup.process_at(Event::Start, TIME, &mut sink);
    backup.process_at(Event::Searched { matches: 1 }, TIME, &mut sink);
    backup.process_at(located("abc"), TIME, &mut sink);
    match backup.process_at(inspected(&[]), TIME, &mut sink) {
        Action::CreateContainer { container } => {
            assert_eq!(
                container.command,
                vec![String::from("bash"), String::from("-c"), String::new()]
            );
        }
        other => panic!("unexpected action {:?}", other),
    }
    assert_eq!(
        sink.last(),
        Some(&line(Level::Warning, "Service web has no mounts, nothing is archived"))
    );
}
