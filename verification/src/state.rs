//! Where a command stands: which outcome it waits for, and what it has to
//! remember until then.

use crate::ident::RecordId;
use crate::plan::{Effect, EffectView};
use vstd::prelude::*;

verus! {

/// The making of a runtime.
#[derive(Debug, PartialEq, Eq)]
pub enum RuntimeStage {
    /// The current directory is being listed.
    Probing { name: String, project_id: String },
    /// The last build is being cleared.
    Cleaning { name: String, project_id: String },
    /// The runtime is being built.
    Building { name: String, project_id: String },
    /// The service is making the runtime.
    Registering,
    /// The name of the current directory is being found.
    Locating { id: String, uri: String },
    /// The archive is being sent.
    Uploading { id: String },
    /// The service is marking the runtime as active.
    Activating { id: String },
}

/// The making of a runtime by its texts.
pub enum RuntimeStageView {
    Probing { name: Seq<char>, project_id: Seq<char> },
    Cleaning { name: Seq<char>, project_id: Seq<char> },
    Building { name: Seq<char>, project_id: Seq<char> },
    Registering,
    Locating { id: Seq<char>, uri: Seq<char> },
    Uploading { id: Seq<char> },
    Activating { id: Seq<char> },
}

impl View for RuntimeStage {
    type V = RuntimeStageView;

    open spec fn view(&self) -> RuntimeStageView {
        match *self {
            RuntimeStage::Probing { name, project_id } => RuntimeStageView::Probing {
                name: name@,
                project_id: project_id@,
            },
            RuntimeStage::Cleaning { name, project_id } => RuntimeStageView::Cleaning {
                name: name@,
                project_id: project_id@,
            },
            RuntimeStage::Building { name, project_id } => RuntimeStageView::Building {
                name: name@,
                project_id: project_id@,
            },
            RuntimeStage::Registering => RuntimeStageView::Registering,
            RuntimeStage::Locating { id, uri } => RuntimeStageView::Locating { id: id@, uri: uri@ },
            RuntimeStage::Uploading { id } => RuntimeStageView::Uploading { id: id@ },
            RuntimeStage::Activating { id } => RuntimeStageView::Activating { id: id@ },
        }
    }
}

/// The making of an input artifact.
#[derive(Debug, PartialEq, Eq)]
pub enum ArtifactStage {
    /// The file is being packed into the archive.
    Packing { project_id: String, archive: String },
    /// The service is making the artifact.
    Registering { archive: String },
    /// The archive is being sent.
    Uploading { id: String, archive: String },
    /// The archive is being deleted.
    Removing { id: String },
    /// The service is marking the artifact as active.
    Activating { id: String },
}

/// The making of an input artifact by its texts.
pub enum ArtifactStageView {
    Packing { project_id: Seq<char>, archive: Seq<char> },
    Registering { archive: Seq<char> },
    Uploading { id: Seq<char>, archive: Seq<char> },
    Removing { id: Seq<char> },
    Activating { id: Seq<char> },
}

impl View for ArtifactStage {
    type V = ArtifactStageView;

    open spec fn view(&self) -> ArtifactStageView {
        match *self {
            ArtifactStage::Packing { project_id, archive } => ArtifactStageView::Packing {
                project_id: project_id@,
                archive: archive@,
            },
            ArtifactStage::Registering { archive } => ArtifactStageView::Registering {
                archive: archive@,
            },
            ArtifactStage::Uploading { id, archive } => ArtifactStageView::Uploading {
                id: id@,
                archive: archive@,
            },
            ArtifactStage::Removing { id } => ArtifactStageView::Removing { id: id@ },
            ArtifactStage::Activating { id } => ArtifactStageView::Activating { id: id@ },
        }
    }
}

/// A command that is one request to the service: which answer it waits for.
#[derive(Debug, Clone, Copy, PartialEq, Eq)]
pub enum RecordStage {
    /// A project is being made.
    Project,
    /// A job is being made.
    Job,
    /// An execution of a job is being made.
    JobExecution,
    /// A job execution is being got and rendered.
    Shown,
}

/// The fetching of the output artifacts of a job execution.
#[derive(Debug, Clone, Copy, PartialEq, Eq)]
pub enum DownloadStage {
    /// The job execution is being got.
    Finding,
    /// The directory of the job execution is being made.
    MakingDirectory { execution: RecordId },
    /// The directory of the job execution is being entered.
    Entering { execution: RecordId },
    /// The names by which the service tells output artifacts are being got.
    Naming { execution: RecordId },
    /// The service is listing the artifacts.
    Listing,
    /// The artifacts are being fetched.
    Fetching,
}

/// The fetching of output artifacts, its identifiers by their bytes.
pub enum DownloadStageView {
    Finding,
    MakingDirectory { execution: Seq<u8> },
    Entering { execution: Seq<u8> },
    Naming { execution: Seq<u8> },
    Listing,
    Fetching,
}

impl View for DownloadStage {
    type V = DownloadStageView;

    open spec fn view(&self) -> DownloadStageView {
        match *self {
            DownloadStage::Finding => DownloadStageView::Finding,
            DownloadStage::MakingDirectory { execution } => DownloadStageView::MakingDirectory {
                execution: execution@,
            },
            DownloadStage::Entering { execution } => DownloadStageView::Entering {
                execution: execution@,
            },
            DownloadStage::Naming { execution } => DownloadStageView::Naming {
                execution: execution@,
            },
            DownloadStage::Listing => DownloadStageView::Listing,
            DownloadStage::Fetching => DownloadStageView::Fetching,
        }
    }
}

/// Where the client stands.
#[derive(Debug, PartialEq, Eq)]
pub enum State {
    Runtime(RuntimeStage),
    InputArtifact(ArtifactStage),
    Record(RecordStage),
    Download(DownloadStage),
    /// Nothing is left to do.
    Finished,
}

/// Where the client stands, by its texts.
pub enum StateView {
    Runtime(RuntimeStageView),
    InputArtifact(ArtifactStageView),
    Record(RecordStage),
    Download(DownloadStageView),
    Finished,
}

impl View for State {
    type V = StateView;

    open spec fn view(&self) -> StateView {
        match *self {
            State::Runtime(stage) => StateView::Runtime(stage@),
            State::InputArtifact(stage) => StateView::InputArtifact(stage@),
            State::Record(stage) => StateView::Record(stage),
            State::Download(stage) => StateView::Download(stage@),
            State::Finished => StateView::Finished,
        }
    }
}

/// What the client does next: it moves to `state`, prints `say` on a line of
/// its own where there is one, and then carries out `effect`. Without an
/// effect the command has ended.
#[derive(Debug, PartialEq)]
pub struct Step {
    pub state: State,
    pub say: Option<String>,
    pub effect: Option<Effect>,
}

/// A step by its texts.
pub struct StepView {
    pub state: StateView,
    pub say: Option<Seq<char>>,
    pub effect: Option<EffectView>,
}

impl View for Step {
    type V = StepView;

    open spec fn view(&self) -> StepView {
        StepView {
            state: self.state@,
            say: self.say.deep_view(),
            effect: match self.effect {
                Some(effect) => Some(effect@),
                None => None,
            },
        }
    }
}

/// A step that may be missing, by its texts.
pub open spec fn step_view(step: Option<Step>) -> Option<StepView> {
    match step {
        Some(step) => Some(step@),
        None => None,
    }
}

} // verus!
