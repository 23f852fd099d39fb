use vstd::prelude::*;

verus! {

/// One backup pass: where the archives go, which image the helper
/// containers run, and the projects to back up, in order.
#[derive(Debug, Clone, PartialEq, Eq)]
pub struct Config {
    pub backup_directory: String,
    pub projects: Vec<BackupConfig>,
    pub image: Option<String>,
}

/// One service of a compose project whose volumes are backed up.
#[derive(Debug, Clone, PartialEq, Eq)]
pub struct BackupConfig {
    pub service: String,
    pub docker_compose: String,
    pub path: String,
    pub backup_command: Option<String>,
}

/// What a `BackupConfig` holds, as mathematical text.
pub struct ProjectView {
    pub service: Seq<char>,
    pub docker_compose: Seq<char>,
    pub path: Seq<char>,
    pub backup_command: Option<Seq<char>>,
}

/// What a `Config` holds, as mathematical text.
pub struct ConfigView {
    pub backup_directory: Seq<char>,
    pub projects: Seq<ProjectView>,
    pub image: Option<Seq<char>>,
}

impl View for BackupConfig {
    type V = ProjectView;

    open spec fn view(&self) -> ProjectView {
        ProjectView {
            service: self.service@,
            docker_compose: self.docker_compose@,
            path: self.path@,
            backup_command: self.backup_command.deep_view(),
        }
    }
}

impl DeepView for BackupConfig {
    type V = ProjectView;

    open spec fn deep_view(&self) -> ProjectView {
        self@
    }
}

impl View for Config {
    type V = ConfigView;

    open spec fn view(&self) -> ConfigView {
        ConfigView {
            backup_directory: self.backup_directory@,
            projects: self.projects.deep_view(),
            image: self.image.deep_view(),
        }
    }
}

} // verus!
