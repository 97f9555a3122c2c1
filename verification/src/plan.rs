//! What the client asks of the world around it, and what the world answers.
//!
//! The decisions of a command are taken here; the work itself (the file
//! system, local programs, the service, the network) is done by the caller,
//! one effect at a time. After each effect the caller reports its outcome and
//! is told the next one.

use crate::filter::{document_fields, FieldValue};
use crate::ident::RecordId;
use crate::tool::{ToolRun, ToolRunView};
use mongodb::bson::Document;
use vstd::prelude::*;

verus! {

/// The transfer of one output artifact into the current directory: ask the
/// service where `artifact` can be had, fetch it from there with an HTTP GET
/// request, write it to `archive`, unpack the archive and delete it.
#[derive(Debug, PartialEq, Eq)]
pub struct ArtifactDownload {
    pub artifact: String,
    pub archive: String,
    pub copy_failure: String,
    pub unpack: ToolRun,
    pub remove: ToolRun,
}

/// The transfer of one output artifact by its texts.
pub struct ArtifactDownloadView {
    pub artifact: Seq<char>,
    pub archive: Seq<char>,
    pub copy_failure: Seq<char>,
    pub unpack: ToolRunView,
    pub remove: ToolRunView,
}

impl View for ArtifactDownload {
    type V = ArtifactDownloadView;

    open spec fn view(&self) -> ArtifactDownloadView {
        ArtifactDownloadView {
            artifact: self.artifact@,
            archive: self.archive@,
            copy_failure: self.copy_failure@,
            unpack: self.unpack@,
            remove: self.remove@,
        }
    }
}

/// One piece of work for the caller.
#[derive(Debug, PartialEq)]
pub enum Effect {
    /// List the entries of the directory `root`, each by its path.
    ListDirectory { root: String },
    /// Run a local program and wait for it.
    Run(ToolRun),
    /// Find the name of the current directory: the last part of its path.
    CurrentDirectoryName,
    /// Have the service make a runtime and say where its archive goes.
    RegisterRuntime { name: String, project_id: String },
    /// Have the service make an input artifact of a project and say where
    /// its archive goes.
    RegisterInputArtifact { project_id: String },
    /// Read the file at `path` whole and send it to `uri` as the body of an
    /// HTTP PUT request. Where the file cannot be opened or read, the client
    /// stops with the failure given.
    UploadFile { path: String, uri: String, open_failure: String, read_failure: String },
    /// Have the service mark the runtime `id` as active.
    ActivateRuntime { id: String },
    /// Have the service mark the artifact `id` as active.
    ActivateArtifact { id: String },
    /// Have the service make a project.
    CreateProject { description: String },
    /// Have the service make a job.
    CreateJob { project_id: String, runtime_id: String, input_artifact_ids: Vec<String> },
    /// Have the service make an execution of a job.
    CreateJobExecution { job_id: String },
    /// Get a job execution from the service and render it for display.
    ShowJobExecution { id: String },
    /// Get a job execution from the service.
    FindJobExecution { id: String },
    /// Make the directory `path` and those above it that are missing.
    CreateDirectory { path: String, failure: String },
    /// Make `path` the current directory.
    EnterDirectory { path: String, failure: String },
    /// Say how the service writes the kind "output" of an artifact and the
    /// status "active".
    NameOutputArtifacts,
    /// Get from the service the artifacts that match `filter`.
    ListArtifacts { filter: Document },
    /// Carry out all the transfers, side by side, and wait for each. Where
    /// one breaks off, the client stops with `failure`.
    FetchArtifacts { downloads: Vec<ArtifactDownload>, failure: String },
    /// Stop the client with `message`.
    Abort { message: String },
}

/// A piece of work by its texts.
pub enum EffectView {
    ListDirectory { root: Seq<char> },
    Run(ToolRunView),
    CurrentDirectoryName,
    RegisterRuntime { name: Seq<char>, project_id: Seq<char> },
    RegisterInputArtifact { project_id: Seq<char> },
    UploadFile {
        path: Seq<char>,
        uri: Seq<char>,
        open_failure: Seq<char>,
        read_failure: Seq<char>,
    },
    ActivateRuntime { id: Seq<char> },
    ActivateArtifact { id: Seq<char> },
    CreateProject { description: Seq<char> },
    CreateJob { project_id: Seq<char>, runtime_id: Seq<char>, input_artifact_ids: Seq<Seq<char>> },
    CreateJobExecution { job_id: Seq<char> },
    ShowJobExecution { id: Seq<char> },
    FindJobExecution { id: Seq<char> },
    CreateDirectory { path: Seq<char>, failure: Seq<char> },
    EnterDirectory { path: Seq<char>, failure: Seq<char> },
    NameOutputArtifacts,
    ListArtifacts { filter: Map<Seq<char>, FieldValue> },
    FetchArtifacts { downloads: Seq<ArtifactDownloadView>, failure: Seq<char> },
    Abort { message: Seq<char> },
}

impl View for Effect {
    type V = EffectView;

    open spec fn view(&self) -> EffectView {
        match *self {
            Effect::ListDirectory { root } => EffectView::ListDirectory { root: root@ },
            Effect::Run(run) => EffectView::Run(run@),
            Effect::CurrentDirectoryName => EffectView::CurrentDirectoryName,
            Effect::RegisterRuntime { name, project_id } => EffectView::RegisterRuntime {
                name: name@,
                project_id: project_id@,
            },
            Effect::RegisterInputArtifact { project_id } => EffectView::RegisterInputArtifact {
                project_id: project_id@,
            },
            Effect::UploadFile { path, uri, open_failure, read_failure } => EffectView::UploadFile {
                path: path@,
                uri: uri@,
                open_failure: open_failure@,
                read_failure: read_failure@,
            },
            Effect::ActivateRuntime { id } => EffectView::ActivateRuntime { id: id@ },
            Effect::ActivateArtifact { id } => EffectView::ActivateArtifact { id: id@ },
            Effect::CreateProject { description } => EffectView::CreateProject {
                description: description@,
            },
            Effect::CreateJob { project_id, runtime_id, input_artifact_ids } => {
                EffectView::CreateJob {
                    project_id: project_id@,
                    runtime_id: runtime_id@,
                    input_artifact_ids: input_artifact_ids.deep_view(),
                }
            },
            Effect::CreateJobExecution { job_id } => EffectView::CreateJobExecution {
                job_id: job_id@,
            },
            Effect::ShowJobExecution { id } => EffectView::ShowJobExecution { id: id@ },
            Effect::FindJobExecution { id } => EffectView::FindJobExecution { id: id@ },
            Effect::CreateDirectory { path, failure } => EffectView::CreateDirectory {
                path: path@,
                failure: failure@,
            },
            Effect::EnterDirectory { path, failure } => EffectView::EnterDirectory {
                path: path@,
                failure: failure@,
            },
            Effect::NameOutputArtifacts => EffectView::NameOutputArtifacts,
            Effect::ListArtifacts { filter } => EffectView::ListArtifacts {
                filter: document_fields(filter),
            },
            Effect::FetchArtifacts { downloads, failure } => EffectView::FetchArtifacts {
                downloads: downloads@.map_values(|d: ArtifactDownload| d@),
                failure: failure@,
            },
            Effect::Abort { message } => EffectView::Abort { message: message@ },
        }
    }
}

/// What came of the effect that was asked for last.
#[derive(Debug, PartialEq, Eq)]
pub enum Outcome {
    /// The paths of the entries of the directory, or `None` where it could
    /// not be read.
    Listed(Option<Vec<String>>),
    /// The work was done and there is nothing to tell.
    Completed,
    /// The name of the current directory.
    DirectoryName(String),
    /// The service made the record `id` and takes its archive at `uri`.
    Registered { id: String, uri: String },
    /// The file was sent.
    Uploaded,
    /// The file could not be sent.
    UploadFailed { reason: String },
    /// The service made the record `id`.
    Created { id: String },
    /// A record, rendered for display.
    Rendered(String),
    /// The job execution, and whether it has been completed.
    Found { execution: RecordId, completed: bool },
    /// How the service writes the kind "output" and the status "active".
    Named { artifact_type: String, status: String },
    /// The artifacts that matched, each by its identifier.
    Artifacts(Vec<RecordId>),
}

/// An outcome by its texts.
pub enum OutcomeView {
    Listed(Option<Seq<Seq<char>>>),
    Completed,
    DirectoryName(Seq<char>),
    Registered { id: Seq<char>, uri: Seq<char> },
    Uploaded,
    UploadFailed { reason: Seq<char> },
    Created { id: Seq<char> },
    Rendered(Seq<char>),
    Found { execution: Seq<u8>, completed: bool },
    Named { artifact_type: Seq<char>, status: Seq<char> },
    Artifacts(Seq<Seq<u8>>),
}

impl View for Outcome {
    type V = OutcomeView;

    open spec fn view(&self) -> OutcomeView {
        match *self {
            Outcome::Listed(listing) => OutcomeView::Listed(listing.deep_view()),
            Outcome::Completed => OutcomeView::Completed,
            Outcome::DirectoryName(name) => OutcomeView::DirectoryName(name@),
            Outcome::Registered { id, uri } => OutcomeView::Registered { id: id@, uri: uri@ },
            Outcome::Uploaded => OutcomeView::Uploaded,
            Outcome::UploadFailed { reason } => OutcomeView::UploadFailed { reason: reason@ },
            Outcome::Created { id } => OutcomeView::Created { id: id@ },
            Outcome::Rendered(text) => OutcomeView::Rendered(text@),
            Outcome::Found { execution, completed } => OutcomeView::Found {
                execution: execution@,
                completed,
            },
            Outcome::Named { artifact_type, status } => OutcomeView::Named {
                artifact_type: artifact_type@,
                status: status@,
            },
            Outcome::Artifacts(ids) => OutcomeView::Artifacts(ids@.map_values(|id: RecordId| id@)),
        }
    }
}

} // verus!
