use compose_backup::report::{emit, report, BackupError, Diagnostic, Level};

#[test]
fn report_appends_one_error_line() {
    let mut sink = vec![Diagnostic { level: Level::Info, message: String::from("earlier") }];
    report(&mut sink, &BackupError::RuntimeOperation { cause: String::from("no such image") });
    assert_eq!(
        sink,
        vec![
            Diagnostic { level: Level::Info, message: String::from("earlier") },
            Diagnostic { level: Level::Error, message: String::from("no such image") },
        ]
    );
}

#[test]
fn container_not_found_names_service_and_directory() {
    let error = BackupError::ContainerNotFound {
        service: String::from("web"),
        docker_compose: String::from("/proj"),
    };
    assert_eq!(
        error.message(),
        "Unable to extract a container id for service: web in /proj/docker-compose.yml"
    );
}

#[test]
fn every_error_has_its_message() {
    let cause = || String::from("why");
    assert_eq!(BackupError::Config { cause: cause() }.message(), "why");
    assert_eq!(BackupError::RuntimeConnection { cause: cause() }.message(), "why");
    assert_eq!(BackupError::RuntimeOperation { cause: cause() }.message(), "why");
    assert_eq!(BackupError::Process { cause: cause() }.message(), "why");
    assert_eq!(BackupError::UnexpectedEvent.message(), "Unexpected event for the pending action");
}

#[test]
fn duplicate_is_equal() {
    let errors = [
        BackupError::Config { cause: String::from("a") },
        BackupError::RuntimeConnection { cause: String::from("b") },
        BackupError::RuntimeOperation { cause: String::from("c") },
        BackupError::ContainerNotFound {
            service: String::from("d"),
            docker_compose: String::from("e"),
        },
        BackupError::Process { cause: String::from("f") },
        BackupError::UnexpectedEvent,
    ];
    for error in errors.iter() {
        assert_eq!(&error.duplicate(), error);
    }
}

#[test]
fn emit_appends_at_the_end() {
    let mut sink = Vec::new();
    emit(&mut sink, Level::Debug, String::from("one"));
    emit(&mut sink, Level::Info, String::from("two"));
    assert_eq!(
        sink,
        vec![
            Diagnostic { level: Level::Debug, message: String::from("one") },
            Diagnostic { level: Level::Info, message: String::from("two") },
        ]
    );
}
