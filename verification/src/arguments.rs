//! The options of the command line, and the one command that they select.

use vstd::prelude::*;
use vstd::string::StringExecFns;

verus! {

/// The options as they were given: a flag for each action, and the values
/// that the actions draw on.
#[derive(Debug, PartialEq, Eq)]
pub struct Arguments {
    pub create_runtime: bool,
    pub create_input_artifact: bool,
    pub create_project: bool,
    pub create_job: bool,
    pub create_job_execution: bool,
    pub get_job_execution: bool,
    pub list_notifications: bool,
    pub download_output_artifacts: bool,
    pub name: Option<String>,
    pub description: Option<String>,
    pub project_id: Option<String>,
    pub job_id: Option<String>,
    pub job_execution_id: Option<String>,
    pub runtime_id: Option<String>,
    pub input_artifact_ids: Option<Vec<String>>,
    pub file: Option<String>,
}

/// The options by their texts.
pub struct ArgumentsView {
    pub create_runtime: bool,
    pub create_input_artifact: bool,
    pub create_project: bool,
    pub create_job: bool,
    pub create_job_execution: bool,
    pub get_job_execution: bool,
    pub list_notifications: bool,
    pub download_output_artifacts: bool,
    pub name: Option<Seq<char>>,
    pub description: Option<Seq<char>>,
    pub project_id: Option<Seq<char>>,
    pub job_id: Option<Seq<char>>,
    pub job_execution_id: Option<Seq<char>>,
    pub runtime_id: Option<Seq<char>>,
    pub input_artifact_ids: Option<Seq<Seq<char>>>,
    pub file: Option<Seq<char>>,
}

impl View for Arguments {
    type V = ArgumentsView;

    open spec fn view(&self) -> ArgumentsView {
        ArgumentsView {
            create_runtime: self.create_runtime,
            create_input_artifact: self.create_input_artifact,
            create_project: self.create_project,
            create_job: self.create_job,
            create_job_execution: self.create_job_execution,
            get_job_execution: self.get_job_execution,
            list_notifications: self.list_notifications,
            download_output_artifacts: self.download_output_artifacts,
            name: self.name.deep_view(),
            description: self.description.deep_view(),
            project_id: self.project_id.deep_view(),
            job_id: self.job_id.deep_view(),
            job_execution_id: self.job_execution_id.deep_view(),
            runtime_id: self.runtime_id.deep_view(),
            input_artifact_ids: self.input_artifact_ids.deep_view(),
            file: self.file.deep_view(),
        }
    }
}

/// An action together with the values it needs.
#[derive(Debug, PartialEq, Eq)]
pub enum Command {
    CreateRuntime { name: String, project_id: String },
    CreateInputArtifact { project_id: String, file: String },
    CreateProject { description: String },
    CreateJob { project_id: String, runtime_id: String, input_artifact_ids: Vec<String> },
    CreateJobExecution { job_id: String },
    GetJobExecution { job_execution_id: String },
    DownloadOutputArtifacts { job_execution_id: String },
}

/// An action and its values by their texts.
pub enum CommandView {
    CreateRuntime { name: Seq<char>, project_id: Seq<char> },
    CreateInputArtifact { project_id: Seq<char>, file: Seq<char> },
    CreateProject { description: Seq<char> },
    CreateJob { project_id: Seq<char>, runtime_id: Seq<char>, input_artifact_ids: Seq<Seq<char>> },
    CreateJobExecution { job_id: Seq<char> },
    GetJobExecution { job_execution_id: Seq<char> },
    DownloadOutputArtifacts { job_execution_id: Seq<char> },
}

impl View for Command {
    type V = CommandView;

    open spec fn view(&self) -> CommandView {
        match *self {
            Command::CreateRuntime { name, project_id } => CommandView::CreateRuntime {
                name: name@,
                project_id: project_id@,
            },
            Command::CreateInputArtifact { project_id, file } => CommandView::CreateInputArtifact {
                project_id: project_id@,
                file: file@,
            },
            Command::CreateProject { description } => CommandView::CreateProject {
                description: description@,
            },
            Command::CreateJob { project_id, runtime_id, input_artifact_ids } => {
                CommandView::CreateJob {
                    project_id: project_id@,
                    runtime_id: runtime_id@,
                    input_artifact_ids: input_artifact_ids.deep_view(),
                }
            },
            Command::CreateJobExecution { job_id } => CommandView::CreateJobExecution {
                job_id: job_id@,
            },
            Command::GetJobExecution { job_execution_id } => CommandView::GetJobExecution {
                job_execution_id: job_execution_id@,
            },
            Command::DownloadOutputArtifacts { job_execution_id } => {
                CommandView::DownloadOutputArtifacts { job_execution_id: job_execution_id@ }
            },
        }
    }
}

/// A value that the selected action needs and the command line lacks.
#[derive(Debug, Clone, Copy, PartialEq, Eq)]
pub enum MissingOption {
    Name,
    Description,
    ProjectId,
    JobId,
    JobExecutionId,
    RuntimeId,
    InputArtifactIds,
    File,
}

/// What the client says of a missing value before it stops.
pub open spec fn missing_text(missing: MissingOption) -> Seq<char> {
    match missing {
        MissingOption::Name => "--name required"@,
        MissingOption::Description => "--description required"@,
        MissingOption::ProjectId => "--project-id required"@,
        MissingOption::JobId => "--job-id required"@,
        MissingOption::JobExecutionId => "--job-execution-id required"@,
        MissingOption::RuntimeId => "--runtime-id required"@,
        MissingOption::InputArtifactIds => "--input-artifact-ids required"@,
        MissingOption::File => "--file required"@,
    }
}

impl MissingOption {
    /// What the client says of the missing value before it stops.
    pub fn message(&self) -> (text: String)
        ensures
            text@ == missing_text(*self),
    {
        match self {
            MissingOption::Name => String::from_str("--name required"),
            MissingOption::Description => String::from_str("--description required"),
            MissingOption::ProjectId => String::from_str("--project-id required"),
            MissingOption::JobId => String::from_str("--job-id required"),
            MissingOption::JobExecutionId => String::from_str("--job-execution-id required"),
            MissingOption::RuntimeId => String::from_str("--runtime-id required"),
            MissingOption::InputArtifactIds => String::from_str("--input-artifact-ids required"),
            MissingOption::File => String::from_str("--file required"),
        }
    }
}

/// `value`, or the complaint that it is missing.
pub open spec fn needed<T>(value: Option<T>, missing: MissingOption) -> Result<T, MissingOption> {
    match value {
        Some(given) => Ok(given),
        None => Err(missing),
    }
}

/// What a selection is, by its texts.
pub type Selection = Result<Option<CommandView>, MissingOption>;

/// The command that `args` select.
///
/// The flags are looked at in a fixed order and the first one that is set
/// decides: runtime, input artifact, project, job, job execution, showing a
/// job execution, fetching output artifacts. With none of them set there is
/// no command. The values of the selected action are taken in the order in
/// which it names them, and the first one that is missing is the complaint.
pub open spec fn selection(args: ArgumentsView) -> Selection {
    if args.create_runtime {
        match (
            needed(args.name, MissingOption::Name),
            needed(args.project_id, MissingOption::ProjectId),
        ) {
            (Err(missing), _) => Err(missing),
            (Ok(_), Err(missing)) => Err(missing),
            (Ok(name), Ok(project_id)) => Ok(Some(CommandView::CreateRuntime { name, project_id })),
        }
    } else if args.create_input_artifact {
        match (
            needed(args.project_id, MissingOption::ProjectId),
            needed(args.file, MissingOption::File),
        ) {
            (Err(missing), _) => Err(missing),
            (Ok(_), Err(missing)) => Err(missing),
            (Ok(project_id), Ok(file)) => Ok(
                Some(CommandView::CreateInputArtifact { project_id, file }),
            ),
        }
    } else if args.create_project {
        match needed(args.description, MissingOption::Description) {
            Err(missing) => Err(missing),
            Ok(description) => Ok(Some(CommandView::CreateProject { description })),
        }
    } else if args.create_job {
        match (
            needed(args.project_id, MissingOption::ProjectId),
            needed(args.runtime_id, MissingOption::RuntimeId),
            needed(args.input_artifact_ids, MissingOption::InputArtifactIds),
        ) {
            (Err(missing), _, _) => Err(missing),
            (Ok(_), Err(missing), _) => Err(missing),
            (Ok(_), Ok(_), Err(missing)) => Err(missing),
            (Ok(project_id), Ok(runtime_id), Ok(input_artifact_ids)) => Ok(
                Some(CommandView::CreateJob { project_id, runtime_id, input_artifact_ids }),
            ),
        }
    } else if args.create_job_execution {
        match needed(args.job_id, MissingOption::JobId) {
            Err(missing) => Err(missing),
            Ok(job_id) => Ok(Some(CommandView::CreateJobExecution { job_id })),
        }
    } else if args.get_job_execution {
        match needed(args.job_execution_id, MissingOption::JobExecutionId) {
            Err(missing) => Err(missing),
            Ok(job_execution_id) => Ok(Some(CommandView::GetJobExecution { job_execution_id })),
        }
    } else if args.download_output_artifacts {
        match needed(args.job_execution_id, MissingOption::JobExecutionId) {
            Err(missing) => Err(missing),
            Ok(job_execution_id) => Ok(
                Some(CommandView::DownloadOutputArtifacts { job_execution_id }),
            ),
        }
    } else {
        Ok(None)
    }
}

/// A selection as it was made, by its texts.
pub open spec fn selection_view(chosen: Result<Option<Command>, MissingOption>) -> Selection {
    match chosen {
        Ok(Some(command)) => Ok(Some(command@)),
        Ok(None) => Ok(None),
        Err(missing) => Err(missing),
    }
}

/// Selects the command of a command line: `Ok(None)` where no action is
/// asked for, `Err` where the selected action lacks a value.
pub fn select_command(args: Arguments) -> (chosen: Result<Option<Command>, MissingOption>)
    ensures
        selection_view(chosen) == selection(args@),
{
    if args.create_runtime {
        match args.name {
            None => Err(MissingOption::Name),
            Some(name) => match args.project_id {
                None => Err(MissingOption::ProjectId),
                Some(project_id) => Ok(Some(Command::CreateRuntime { name, project_id })),
            },
        }
    } else if args.create_input_artifact {
        match args.project_id {
            None => Err(MissingOption::ProjectId),
            Some(project_id) => match args.file {
                None => Err(MissingOption::File),
                Some(file) => Ok(Some(Command::CreateInputArtifact { project_id, file })),
            },
        }
    } else if args.create_project {
        match args.description {
            None => Err(MissingOption::Description),
            Some(description) => Ok(Some(Command::CreateProject { description })),
        }
    } else if args.create_job {
        match args.project_id {
            None => Err(MissingOption::ProjectId),
            Some(project_id) => match args.runtime_id {
                None => Err(MissingOption::RuntimeId),
                Some(runtime_id) => match args.input_artifact_ids {
                    None => Err(MissingOption::InputArtifactIds),
                    Some(input_artifact_ids) => Ok(
                        Some(Command::CreateJob { project_id, runtime_id, input_artifact_ids }),
                    ),
                },
            },
        }
    } else if args.create_job_execution {
        match args.job_id {
            None => Err(MissingOption::JobId),
            Some(job_id) => Ok(Some(Command::CreateJobExecution { job_id })),
        }
    } else if args.get_job_execution {
        match args.job_execution_id {
            None => Err(MissingOption::JobExecutionId),
            Some(job_execution_id) => Ok(Some(Command::GetJobExecution { job_execution_id })),
        }
    } else if args.download_output_artifacts {
        match args.job_execution_id {
            None => Err(MissingOption::JobExecutionId),
            Some(job_execution_id) => Ok(
                Some(Command::DownloadOutputArtifacts { job_execution_id }),
            ),
        }
    } else {
        Ok(None)
    }
}

} // verus!
