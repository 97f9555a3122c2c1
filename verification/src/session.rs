//! A run of the client from the selected command to its end.
//!
//! `start` gives the first step of a command and `advance` each later one.
//! The caller prints what a step says, carries out its effect and comes back
//! with the outcome, until a step has no effect.

use crate::arguments::{Command, CommandView};
use crate::artifact::{
    artifact_opening, artifact_step, continue_input_artifact, create_input_artifact,
};
use crate::download::{
    continue_download, download_opening, download_output_artifacts, download_step,
};
use crate::plan::{EffectView, Outcome, OutcomeView};
use crate::records::{
    continue_record, create_job, create_job_execution, create_project, get_job_execution,
    job_execution_opening, job_opening, project_opening, record_step, show_opening,
};
use crate::runtime::{continue_runtime, create_runtime, runtime_opening, runtime_step};
use crate::state::{
    ArtifactStageView, DownloadStageView, RuntimeStageView, State, StateView, Step, StepView,
    step_view,
};
use vstd::prelude::*;

verus! {

/// The first step of `command`.
pub open spec fn opening(command: CommandView) -> StepView {
    match command {
        CommandView::CreateRuntime { name, project_id } => runtime_opening(name, project_id),
        CommandView::CreateInputArtifact { project_id, file } => artifact_opening(project_id, file),
        CommandView::CreateProject { description } => project_opening(description),
        CommandView::CreateJob { project_id, runtime_id, input_artifact_ids } => job_opening(
            project_id,
            runtime_id,
            input_artifact_ids,
        ),
        CommandView::CreateJobExecution { job_id } => job_execution_opening(job_id),
        CommandView::GetJobExecution { job_execution_id } => show_opening(job_execution_id),
        CommandView::DownloadOutputArtifacts { job_execution_id } => download_opening(
            job_execution_id,
        ),
    }
}

/// The step that follows `outcome` at `state`; `None` where the command has
/// ended or `state` waits for another kind of outcome.
pub open spec fn next_step(state: StateView, outcome: OutcomeView) -> Option<StepView> {
    match state {
        StateView::Runtime(stage) => runtime_step(stage, outcome),
        StateView::InputArtifact(stage) => artifact_step(stage, outcome),
        StateView::Record(stage) => record_step(stage, outcome),
        StateView::Download(stage) => download_step(stage, outcome),
        StateView::Finished => None,
    }
}

/// The most outcomes that a command at `state` still takes in.
pub open spec fn remaining(state: StateView) -> nat {
    match state {
        StateView::Runtime(RuntimeStageView::Probing { .. }) => 7,
        StateView::Runtime(RuntimeStageView::Cleaning { .. }) => 6,
        StateView::Runtime(RuntimeStageView::Building { .. }) => 5,
        StateView::Runtime(RuntimeStageView::Registering) => 4,
        StateView::Runtime(RuntimeStageView::Locating { .. }) => 3,
        StateView::Runtime(RuntimeStageView::Uploading { .. }) => 2,
        StateView::Runtime(RuntimeStageView::Activating { .. }) => 1,
        StateView::InputArtifact(ArtifactStageView::Packing { .. }) => 5,
        StateView::InputArtifact(ArtifactStageView::Registering { .. }) => 4,
        StateView::InputArtifact(ArtifactStageView::Uploading { .. }) => 3,
        StateView::InputArtifact(ArtifactStageView::Removing { .. }) => 2,
        StateView::InputArtifact(ArtifactStageView::Activating { .. }) => 1,
        StateView::Record(_) => 1,
        StateView::Download(DownloadStageView::Finding) => 6,
        StateView::Download(DownloadStageView::MakingDirectory { .. }) => 5,
        StateView::Download(DownloadStageView::Entering { .. }) => 4,
        StateView::Download(DownloadStageView::Naming { .. }) => 3,
        StateView::Download(DownloadStageView::Listing) => 2,
        StateView::Download(DownloadStageView::Fetching) => 1,
        StateView::Finished => 0,
    }
}

/// A step ends the command: it asks for nothing, or for the client to stop.
pub open spec fn is_last(step: StepView) -> bool {
    step.effect is None || step.effect matches Some(EffectView::Abort { .. })
}

/// Begins `command`.
pub fn start(command: Command) -> (step: Step)
    ensures
        step@ == opening(command@),
{
    match command {
        Command::CreateRuntime { name, project_id } => create_runtime(name, project_id),
        Command::CreateInputArtifact { project_id, file } => create_input_artifact(
            project_id,
            file,
        ),
        Command::CreateProject { description } => create_project(description),
        Command::CreateJob { project_id, runtime_id, input_artifact_ids } => create_job(
            project_id,
            runtime_id,
            input_artifact_ids,
        ),
        Command::CreateJobExecution { job_id } => create_job_execution(job_id),
        Command::GetJobExecution { job_execution_id } => get_job_execution(job_execution_id),
        Command::DownloadOutputArtifacts { job_execution_id } => download_output_artifacts(
            job_execution_id,
        ),
    }
}

/// Goes on after `outcome`, the outcome of the effect that the last step
/// asked for. Gives `None` where the command has ended, or where `outcome`
/// is not of the kind that the effect brings.
pub fn advance(state: State, outcome: Outcome) -> (step: Option<Step>)
    ensures
        step_view(step) == next_step(state@, outcome@),
{
    match state {
        State::Runtime(stage) => continue_runtime(stage, outcome),
        State::InputArtifact(stage) => continue_input_artifact(stage, outcome),
        State::Record(stage) => continue_record(stage, outcome),
        State::Download(stage) => continue_download(stage, outcome),
        State::Finished => None,
    }
}

/// A command begins with work to do: its first step asks for an effect and
/// is not the last.
pub proof fn law_opening_asks(command: CommandView)
    ensures
        !is_last(opening(command)),
        opening(command).state !is Finished,
{
}

/// Every step brings the end nearer: a command is over after at most seven
/// outcomes, whatever they are.
pub proof fn law_steps_run_down(state: StateView, outcome: OutcomeView)
    requires
        next_step(state, outcome) is Some,
    ensures
        remaining(next_step(state, outcome)->0.state) < remaining(state),
        remaining(state) <= 7,
{
}

/// A step is the last one exactly when it leaves the command finished.
pub proof fn law_last_step_finishes(state: StateView, outcome: OutcomeView)
    requires
        next_step(state, outcome) is Some,
    ensures
        is_last(next_step(state, outcome)->0) <==> next_step(state, outcome)->0.state is Finished,
{
}

/// A runtime is marked as active only as the answer to its archive having
/// been sent.
pub proof fn law_runtime_active_after_upload(state: StateView, outcome: OutcomeView, id: Seq<char>)
    requires
        next_step(state, outcome) is Some,
        next_step(state, outcome)->0.effect == Some(EffectView::ActivateRuntime { id }),
    ensures
        state == StateView::Runtime(RuntimeStageView::Uploading { id }),
        outcome == OutcomeView::Uploaded,
{
}

/// The archive of an input artifact is deleted only as the answer to its
/// having been sent.
pub proof fn law_archive_removed_after_upload(state: StateView, outcome: OutcomeView, id: Seq<char>)
    requires
        next_step(state, outcome) is Some,
        next_step(state, outcome)->0.state == StateView::InputArtifact(
            ArtifactStageView::Removing { id },
        ),
    ensures
        outcome == OutcomeView::Uploaded,
        state matches StateView::InputArtifact(ArtifactStageView::Uploading { id: sent, .. })
            && sent == id,
{
}

/// An input artifact is marked as active only once its archive has been
/// deleted, and so only after the archive was sent.
pub proof fn law_artifact_active_after_removal(
    state: StateView,
    outcome: OutcomeView,
    id: Seq<char>,
)
    requires
        next_step(state, outcome) is Some,
        next_step(state, outcome)->0.effect == Some(EffectView::ActivateArtifact { id }),
    ensures
        state == StateView::InputArtifact(ArtifactStageView::Removing { id }),
        outcome == OutcomeView::Completed,
{
}

/// Nothing is written to disk for a job execution that has not been
/// completed: the directory is made only for a completed one, and every
/// later step of the command comes after that.
pub proof fn law_download_needs_completion(state: StateView, outcome: OutcomeView)
    requires
        next_step(state, outcome) is Some,
        next_step(state, outcome)->0.effect matches Some(EffectView::CreateDirectory { .. }),
    ensures
        state == StateView::Download(DownloadStageView::Finding),
        outcome matches OutcomeView::Found { completed, .. } && completed,
{
}

} // verus!
