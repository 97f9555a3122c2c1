//! The command that builds a runtime in the current directory, hands its
//! archive to the service and has it marked as active.

use crate::marker::{is_directory_dice_runtime, names_runtime};
use crate::plan::{Effect, EffectView, Outcome, OutcomeView};
use crate::state::{RuntimeStage, RuntimeStageView, State, StateView, Step, StepView, step_view};
use crate::text::joined;
use crate::tool::{build_run, build_runtime, clean_run, clean_runtime};
use vstd::prelude::*;
use vstd::string::StringExecFns;

verus! {

/// Where the build leaves the archive of the runtime, seen from the
/// directory `directory` of the repository.
pub open spec fn runtime_archive_path(directory: Seq<char>) -> Seq<char> {
    "target/wasm32-wasi/release/"@ + directory + ".tar"@
}

/// The command begins by listing the current directory.
pub open spec fn runtime_opening(name: Seq<char>, project_id: Seq<char>) -> StepView {
    StepView {
        state: StateView::Runtime(RuntimeStageView::Probing { name, project_id }),
        say: None,
        effect: Some(EffectView::ListDirectory { root: "."@ }),
    }
}

/// The step that follows `outcome` at `stage`; `None` where `stage` waits
/// for another kind of outcome.
///
/// Outside a runtime repository the command ends at once. In one it clears
/// and builds, has the runtime made, sends the archive and, only if that
/// went through, has the runtime marked as active.
pub open spec fn runtime_step(stage: RuntimeStageView, outcome: OutcomeView) -> Option<StepView> {
    match (stage, outcome) {
        (RuntimeStageView::Probing { name, project_id }, OutcomeView::Listed(listing)) => {
            if names_runtime(listing) {
                Some(
                    StepView {
                        state: StateView::Runtime(RuntimeStageView::Cleaning { name, project_id }),
                        say: Some("Validated located in DICE runtime"@),
                        effect: Some(EffectView::Run(clean_run())),
                    },
                )
            } else {
                Some(
                    StepView {
                        state: StateView::Finished,
                        say: Some("NOT IN A DICE RUNTIME"@),
                        effect: None,
                    },
                )
            }
        },
        (RuntimeStageView::Cleaning { name, project_id }, OutcomeView::Completed) => Some(
            StepView {
                state: StateView::Runtime(RuntimeStageView::Building { name, project_id }),
                say: None,
                effect: Some(EffectView::Run(build_run())),
            },
        ),
        (RuntimeStageView::Building { name, project_id }, OutcomeView::Completed) => Some(
            StepView {
                state: StateView::Runtime(RuntimeStageView::Registering),
                say: Some("Runtime build completed"@),
                effect: Some(EffectView::RegisterRuntime { name, project_id }),
            },
        ),
        (RuntimeStageView::Registering, OutcomeView::Registered { id, uri }) => Some(
            StepView {
                state: StateView::Runtime(RuntimeStageView::Locating { id, uri }),
                say: None,
                effect: Some(EffectView::CurrentDirectoryName),
            },
        ),
        (RuntimeStageView::Locating { id, uri }, OutcomeView::DirectoryName(directory)) => Some(
            StepView {
                state: StateView::Runtime(RuntimeStageView::Uploading { id }),
                say: None,
                effect: Some(
                    EffectView::UploadFile {
                        path: runtime_archive_path(directory),
                        uri,
                        open_failure: "Could not open runtime file"@,
                        read_failure: "Could not read runtime file"@,
                    },
                ),
            },
        ),
        (RuntimeStageView::Uploading { id }, OutcomeView::Uploaded) => Some(
            StepView {
                state: StateView::Runtime(RuntimeStageView::Activating { id }),
                say: Some("Successfully uploaded runtime"@),
                effect: Some(EffectView::ActivateRuntime { id }),
            },
        ),
        (RuntimeStageView::Uploading { id }, OutcomeView::UploadFailed { reason }) => Some(
            StepView {
                state: StateView::Finished,
                say: Some("Could not upload runtime: "@ + reason),
                effect: None,
            },
        ),
        (RuntimeStageView::Activating { id }, OutcomeView::Completed) => Some(
            StepView {
                state: StateView::Finished,
                say: Some("Created runtime: "@ + id),
                effect: None,
            },
        ),
        _ => None,
    }
}

/// Begins the making of the runtime `name` in the project `project_id`.
pub fn create_runtime(name: String, project_id: String) -> (step: Step)
    ensures
        step@ == runtime_opening(name@, project_id@),
{
    Step {
        state: State::Runtime(RuntimeStage::Probing { name, project_id }),
        say: None,
        effect: Some(Effect::ListDirectory { root: String::from_str(".") }),
    }
}

/// Goes on with the making of a runtime after `outcome`.
pub fn continue_runtime(stage: RuntimeStage, outcome: Outcome) -> (step: Option<Step>)
    ensures
        step_view(step) == runtime_step(stage@, outcome@),
{
    match stage {
        RuntimeStage::Probing { name, project_id } => match outcome {
            Outcome::Listed(listing) => {
                if is_directory_dice_runtime(&listing) {
                    Some(
                        Step {
                            state: State::Runtime(RuntimeStage::Cleaning { name, project_id }),
                            say: Some(String::from_str("Validated located in DICE runtime")),
                            effect: Some(Effect::Run(clean_runtime())),
                        },
                    )
                } else {
                    Some(
                        Step {
                            state: State::Finished,
                            say: Some(String::from_str("NOT IN A DICE RUNTIME")),
                            effect: None,
                        },
                    )
                }
            },
            _ => None,
        },
        RuntimeStage::Cleaning { name, project_id } => match outcome {
            Outcome::Completed => Some(
                Step {
                    state: State::Runtime(RuntimeStage::Building { name, project_id }),
                    say: None,
                    effect: Some(Effect::Run(build_runtime())),
                },
            ),
            _ => None,
        },
        RuntimeStage::Building { name, project_id } => match outcome {
            Outcome::Completed => Some(
                Step {
                    state: State::Runtime(RuntimeStage::Registering),
                    say: Some(String::from_str("Runtime build completed")),
                    effect: Some(Effect::RegisterRuntime { name, project_id }),
                },
            ),
            _ => None,
        },
        RuntimeStage::Registering => match outcome {
            Outcome::Registered { id, uri } => Some(
                Step {
                    state: State::Runtime(RuntimeStage::Locating { id, uri }),
                    say: None,
                    effect: Some(Effect::CurrentDirectoryName),
                },
            ),
            _ => None,
        },
        RuntimeStage::Locating { id, uri } => match outcome {
            Outcome::DirectoryName(directory) => {
                let path = joined("target/wasm32-wasi/release/", directory.as_str()).concat(".tar");
                Some(
                    Step {
                        state: State::Runtime(RuntimeStage::Uploading { id }),
                        say: None,
                        effect: Some(
                            Effect::UploadFile {
                                path,
                                uri,
                                open_failure: String::from_str("Could not open runtime file"),
                                read_failure: String::from_str("Could not read runtime file"),
                            },
                        ),
                    },
                )
            },
            _ => None,
        },
        RuntimeStage::Uploading { id } => match outcome {
            Outcome::Uploaded => {
                let active = id.clone();
                Some(
                    Step {
                        state: State::Runtime(RuntimeStage::Activating { id }),
                        say: Some(String::from_str("Successfully uploaded runtime")),
                        effect: Some(Effect::ActivateRuntime { id: active }),
                    },
                )
            },
            Outcome::UploadFailed { reason } => Some(
                Step {
                    state: State::Finished,
                    say: Some(joined("Could not upload runtime: ", reason.as_str())),
                    effect: None,
                },
            ),
            _ => None,
        },
        RuntimeStage::Activating { id } => match outcome {
            Outcome::Completed => Some(
                Step {
                    state: State::Finished,
                    say: Some(joined("Created runtime: ", id.as_str())),
                    effect: None,
                },
            ),
            _ => None,
        },
    }
}

} // verus!
