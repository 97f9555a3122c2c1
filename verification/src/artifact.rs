//! The command that packs a local file, hands the archive to the service as
//! an input artifact of a project and has it marked as active.

use crate::plan::{Effect, EffectView, Outcome, OutcomeView};
use crate::state::{ArtifactStage, ArtifactStageView, State, StateView, Step, StepView, step_view};
use crate::text::joined;
use crate::tool::{pack_input, pack_run, remove_archive, remove_run};
use vstd::prelude::*;
use vstd::string::StringExecFns;

verus! {

/// The archive that `file` is packed into.
pub open spec fn archive_name(file: Seq<char>) -> Seq<char> {
    file + ".tar"@
}

/// The command begins by packing the file.
pub open spec fn artifact_opening(project_id: Seq<char>, file: Seq<char>) -> StepView {
    StepView {
        state: StateView::InputArtifact(
            ArtifactStageView::Packing { project_id, archive: archive_name(file) },
        ),
        say: None,
        effect: Some(EffectView::Run(pack_run(archive_name(file), file))),
    }
}

/// The step that follows `outcome` at `stage`; `None` where `stage` waits
/// for another kind of outcome.
///
/// The archive is deleted and the artifact marked as active only after the
/// archive was sent; where sending fails the archive stays.
pub open spec fn artifact_step(stage: ArtifactStageView, outcome: OutcomeView) -> Option<StepView> {
    match (stage, outcome) {
        (ArtifactStageView::Packing { project_id, archive }, OutcomeView::Completed) => Some(
            StepView {
                state: StateView::InputArtifact(ArtifactStageView::Registering { archive }),
                say: None,
                effect: Some(EffectView::RegisterInputArtifact { project_id }),
            },
        ),
        (ArtifactStageView::Registering { archive }, OutcomeView::Registered { id, uri }) => Some(
            StepView {
                state: StateView::InputArtifact(ArtifactStageView::Uploading { id, archive }),
                say: None,
                effect: Some(
                    EffectView::UploadFile {
                        path: archive,
                        uri,
                        open_failure: "Could not open tar file"@,
                        read_failure: "Could not read tar file"@,
                    },
                ),
            },
        ),
        (ArtifactStageView::Uploading { id, archive }, OutcomeView::Uploaded) => Some(
            StepView {
                state: StateView::InputArtifact(ArtifactStageView::Removing { id }),
                say: Some("Successfully uploaded input artifact"@),
                effect: Some(EffectView::Run(remove_run(archive))),
            },
        ),
        (ArtifactStageView::Uploading { id, archive }, OutcomeView::UploadFailed { reason }) => {
            Some(
                StepView {
                    state: StateView::Finished,
                    say: Some("Could not upload input artifact: "@ + reason),
                    effect: None,
                },
            )
        },
        (ArtifactStageView::Removing { id }, OutcomeView::Completed) => Some(
            StepView {
                state: StateView::InputArtifact(ArtifactStageView::Activating { id }),
                say: None,
                effect: Some(EffectView::ActivateArtifact { id }),
            },
        ),
        (ArtifactStageView::Activating { id }, OutcomeView::Completed) => Some(
            StepView {
                state: StateView::Finished,
                say: Some("Created input artifact: "@ + id),
                effect: None,
            },
        ),
        _ => None,
    }
}

/// Begins the making of an input artifact of the project `project_id` from
/// the local file `file_name`.
pub fn create_input_artifact(project_id: String, file_name: String) -> (step: Step)
    ensures
        step@ == artifact_opening(project_id@, file_name@),
{
    let archive = joined(file_name.as_str(), ".tar");
    let run = pack_input(archive.clone(), file_name);
    Step {
        state: State::InputArtifact(ArtifactStage::Packing { project_id, archive }),
        say: None,
        effect: Some(Effect::Run(run)),
    }
}

/// Goes on with the making of an input artifact after `outcome`.
pub fn continue_input_artifact(stage: ArtifactStage, outcome: Outcome) -> (step: Option<Step>)
    ensures
        step_view(step) == artifact_step(stage@, outcome@),
{
    match stage {
        ArtifactStage::Packing { project_id, archive } => match outcome {
            Outcome::Completed => Some(
                Step {
                    state: State::InputArtifact(ArtifactStage::Registering { archive }),
                    say: None,
                    effect: Some(Effect::RegisterInputArtifact { project_id }),
                },
            ),
            _ => None,
        },
        ArtifactStage::Registering { archive } => match outcome {
            Outcome::Registered { id, uri } => {
                let path = archive.clone();
                Some(
                    Step {
                        state: State::InputArtifact(ArtifactStage::Uploading { id, archive }),
                        say: None,
                        effect: Some(
                            Effect::UploadFile {
                                path,
                                uri,
                                open_failure: String::from_str("Could not open tar file"),
                                read_failure: String::from_str("Could not read tar file"),
                            },
                        ),
                    },
                )
            },
            _ => None,
        },
        ArtifactStage::Uploading { id, archive } => match outcome {
            Outcome::Uploaded => Some(
                Step {
                    state: State::InputArtifact(ArtifactStage::Removing { id }),
                    say: Some(String::from_str("Successfully uploaded input artifact")),
                    effect: Some(Effect::Run(remove_archive(archive))),
                },
            ),
            Outcome::UploadFailed { reason } => Some(
                Step {
                    state: State::Finished,
                    say: Some(joined("Could not upload input artifact: ", reason.as_str())),
                    effect: None,
                },
            ),
            _ => None,
        },
        ArtifactStage::Removing { id } => match outcome {
            Outcome::Completed => {
                let active = id.clone();
                Some(
                    Step {
                        state: State::InputArtifact(ArtifactStage::Activating { id }),
                        say: None,
                        effect: Some(Effect::ActivateArtifact { id: active }),
                    },
                )
            },
            _ => None,
        },
        ArtifactStage::Activating { id } => match outcome {
            Outcome::Completed => Some(
                Step {
                    state: State::Finished,
                    say: Some(joined("Created input artifact: ", id.as_str())),
                    effect: None,
                },
            ),
            _ => None,
        },
    }
}

} // verus!
