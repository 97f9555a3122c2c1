//! The commands that are one request to the service: make a project, a job
//! or an execution of a job, or show a job execution.

use crate::plan::{Effect, EffectView, Outcome, OutcomeView};
use crate::state::{RecordStage, State, StateView, Step, StepView, step_view};
use crate::text::joined;
use vstd::prelude::*;

verus! {

/// The command asks the service for a project.
pub open spec fn project_opening(description: Seq<char>) -> StepView {
    StepView {
        state: StateView::Record(RecordStage::Project),
        say: None,
        effect: Some(EffectView::CreateProject { description }),
    }
}

/// The command asks the service for a job.
pub open spec fn job_opening(
    project_id: Seq<char>,
    runtime_id: Seq<char>,
    input_artifact_ids: Seq<Seq<char>>,
) -> StepView {
    StepView {
        state: StateView::Record(RecordStage::Job),
        say: None,
        effect: Some(EffectView::CreateJob { project_id, runtime_id, input_artifact_ids }),
    }
}

/// The command asks the service for an execution of a job.
pub open spec fn job_execution_opening(job_id: Seq<char>) -> StepView {
    StepView {
        state: StateView::Record(RecordStage::JobExecution),
        say: None,
        effect: Some(EffectView::CreateJobExecution { job_id }),
    }
}

/// The command asks the service for a job execution, rendered.
pub open spec fn show_opening(id: Seq<char>) -> StepView {
    StepView {
        state: StateView::Record(RecordStage::Shown),
        say: None,
        effect: Some(EffectView::ShowJobExecution { id }),
    }
}

/// The last step of a command: `line` is printed and nothing is left to do.
pub open spec fn closing(line: Seq<char>) -> StepView {
    StepView { state: StateView::Finished, say: Some(line), effect: None }
}

/// The step that follows `outcome` at `stage`; `None` where `stage` waits
/// for another kind of outcome. The answer of the service is printed and the
/// command ends.
pub open spec fn record_step(stage: RecordStage, outcome: OutcomeView) -> Option<StepView> {
    match (stage, outcome) {
        (RecordStage::Project, OutcomeView::Created { id }) => Some(
            closing("Created project: "@ + id),
        ),
        (RecordStage::Job, OutcomeView::Created { id }) => Some(closing("Created job: "@ + id)),
        (RecordStage::JobExecution, OutcomeView::Created { id }) => Some(
            closing("Created job execution: "@ + id),
        ),
        (RecordStage::Shown, OutcomeView::Rendered(text)) => Some(
            closing("Job execution: "@ + text),
        ),
        _ => None,
    }
}

/// Begins the making of a project.
pub fn create_project(description: String) -> (step: Step)
    ensures
        step@ == project_opening(description@),
{
    Step {
        state: State::Record(RecordStage::Project),
        say: None,
        effect: Some(Effect::CreateProject { description }),
    }
}

/// Begins the making of a job of the project `project_id`, which runs the
/// runtime `runtime_id` on the input artifacts given.
pub fn create_job(project_id: String, runtime_id: String, input_artifact_ids: Vec<String>) -> (step:
    Step)
    ensures
        step@ == job_opening(project_id@, runtime_id@, input_artifact_ids.deep_view()),
{
    Step {
        state: State::Record(RecordStage::Job),
        say: None,
        effect: Some(Effect::CreateJob { project_id, runtime_id, input_artifact_ids }),
    }
}

/// Begins the making of an execution of the job `job_id`.
pub fn create_job_execution(job_id: String) -> (step: Step)
    ensures
        step@ == job_execution_opening(job_id@),
{
    Step {
        state: State::Record(RecordStage::JobExecution),
        say: None,
        effect: Some(Effect::CreateJobExecution { job_id }),
    }
}

/// Begins the showing of the job execution `job_execution_id`.
pub fn get_job_execution(job_execution_id: String) -> (step: Step)
    ensures
        step@ == show_opening(job_execution_id@),
{
    Step {
        state: State::Record(RecordStage::Shown),
        say: None,
        effect: Some(Effect::ShowJobExecution { id: job_execution_id }),
    }
}

/// The step that prints `head` and `tail` on one line and ends the command.
fn close_with(head: &str, tail: &str) -> (step: Step)
    ensures
        step@ == closing(head@ + tail@),
{
    Step { state: State::Finished, say: Some(joined(head, tail)), effect: None }
}

/// Goes on with a command of one request after `outcome`.
pub fn continue_record(stage: RecordStage, outcome: Outcome) -> (step: Option<Step>)
    ensures
        step_view(step) == record_step(stage, outcome@),
{
    match stage {
        RecordStage::Project => match outcome {
            Outcome::Created { id } => Some(close_with("Created project: ", id.as_str())),
            _ => None,
        },
        RecordStage::Job => match outcome {
            Outcome::Created { id } => Some(close_with("Created job: ", id.as_str())),
            _ => None,
        },
        RecordStage::JobExecution => match outcome {
            Outcome::Created { id } => Some(close_with("Created job execution: ", id.as_str())),
            _ => None,
        },
        RecordStage::Shown => match outcome {
            Outcome::Rendered(text) => Some(close_with("Job execution: ", text.as_str())),
            _ => None,
        },
    }
}

} // verus!
