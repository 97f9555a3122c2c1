//! The command that fetches the output artifacts of a completed job
//! execution into a directory named after it.

use crate::filter::{output_artifact_fields, output_artifact_filter};
use crate::ident::{hex_text, record_text, RecordId};
use crate::plan::{ArtifactDownload, ArtifactDownloadView, Effect, EffectView, Outcome, OutcomeView};
use crate::state::{DownloadStage, DownloadStageView, State, StateView, Step, StepView, step_view};
use crate::text::joined;
use crate::tool::{remove_archive, remove_run, unpack_archive, unpack_run};
use vstd::prelude::*;
use vstd::string::StringExecFns;

verus! {

/// The file that the artifact `id` is written to before it is unpacked.
pub open spec fn download_archive(id: Seq<u8>) -> Seq<char> {
    hex_text(id) + ".tar"@
}

/// The transfer of the artifact `id`.
pub open spec fn download_of(id: Seq<u8>) -> ArtifactDownloadView {
    ArtifactDownloadView {
        artifact: hex_text(id),
        archive: download_archive(id),
        copy_failure: "Could not copy artifact to file"@,
        unpack: unpack_run(download_archive(id)),
        remove: remove_run(download_archive(id)),
    }
}

/// What the client says of a job execution that has not been completed.
pub open spec fn unfinished_text() -> Seq<char> {
    "Cannot download artifacts for a job that has not yet been completed"@
}

/// The command begins by getting the job execution.
pub open spec fn download_opening(job_execution_id: Seq<char>) -> StepView {
    StepView {
        state: StateView::Download(DownloadStageView::Finding),
        say: None,
        effect: Some(EffectView::FindJobExecution { id: job_execution_id }),
    }
}

/// The step that follows `outcome` at `stage`; `None` where `stage` waits
/// for another kind of outcome.
///
/// A job execution that has not been completed stops the client. For a
/// completed one the command makes and enters the directory named after it,
/// has the service list its active output artifacts and fetches each.
pub open spec fn download_step(stage: DownloadStageView, outcome: OutcomeView) -> Option<StepView> {
    match (stage, outcome) {
        (DownloadStageView::Finding, OutcomeView::Found { execution, completed }) => {
            if completed {
                Some(
                    StepView {
                        state: StateView::Download(
                            DownloadStageView::MakingDirectory { execution },
                        ),
                        say: None,
                        effect: Some(
                            EffectView::CreateDirectory {
                                path: hex_text(execution),
                                failure: "Could not create job output directory"@,
                            },
                        ),
                    },
                )
            } else {
                Some(
                    StepView {
                        state: StateView::Finished,
                        say: None,
                        effect: Some(EffectView::Abort { message: unfinished_text() }),
                    },
                )
            }
        },
        (DownloadStageView::MakingDirectory { execution }, OutcomeView::Completed) => Some(
            StepView {
                state: StateView::Download(DownloadStageView::Entering { execution }),
                say: None,
                effect: Some(
                    EffectView::EnterDirectory {
                        path: hex_text(execution),
                        failure: "Could not change directories"@,
                    },
                ),
            },
        ),
        (DownloadStageView::Entering { execution }, OutcomeView::Completed) => Some(
            StepView {
                state: StateView::Download(DownloadStageView::Naming { execution }),
                say: None,
                effect: Some(EffectView::NameOutputArtifacts),
            },
        ),
        (DownloadStageView::Naming { execution }, OutcomeView::Named { artifact_type, status }) => {
            Some(
                StepView {
                    state: StateView::Download(DownloadStageView::Listing),
                    say: None,
                    effect: Some(
                        EffectView::ListArtifacts {
                            filter: output_artifact_fields(artifact_type, execution, status),
                        },
                    ),
                },
            )
        },
        (DownloadStageView::Listing, OutcomeView::Artifacts(ids)) => Some(
            StepView {
                state: StateView::Download(DownloadStageView::Fetching),
                say: None,
                effect: Some(
                    EffectView::FetchArtifacts {
                        downloads: ids.map_values(|id: Seq<u8>| download_of(id)),
                        failure: "Could not upload ouput artifact"@,
                    },
                ),
            },
        ),
        (DownloadStageView::Fetching, OutcomeView::Completed) => Some(
            StepView { state: StateView::Finished, say: None, effect: None },
        ),
        _ => None,
    }
}

/// The transfer of the artifact `id`.
pub fn plan_download(id: &RecordId) -> (download: ArtifactDownload)
    ensures
        download@ == download_of(id@),
{
    let archive = joined(record_text(id).as_str(), ".tar");
    ArtifactDownload {
        artifact: record_text(id),
        archive: archive.clone(),
        copy_failure: String::from_str("Could not copy artifact to file"),
        unpack: unpack_archive(archive.clone()),
        remove: remove_archive(archive),
    }
}

/// The transfers of the artifacts `ids`, one for each and in their order.
pub fn plan_downloads(ids: &Vec<RecordId>) -> (downloads: Vec<ArtifactDownload>)
    ensures
        downloads@.map_values(|d: ArtifactDownload| d@) == ids@.map_values(
            |id: RecordId| download_of(id@),
        ),
{
    let mut downloads: Vec<ArtifactDownload> = Vec::new();
    let mut i: usize = 0;
    while i < ids.len()
        invariant
            i <= ids.len(),
            downloads.len() == i,
            forall|k: int| 0 <= k < i ==> (#[trigger] downloads@[k])@ == download_of(ids@[k]@),
        decreases ids.len() - i,
    {
        downloads.push(plan_download(&ids[i]));
        i += 1;
    }
    assert(downloads@.map_values(|d: ArtifactDownload| d@) =~= ids@.map_values(
        |id: RecordId| download_of(id@),
    ));
    downloads
}

/// What the client says of a job execution that has not been completed.
fn unfinished() -> (message: String)
    ensures
        message@ == unfinished_text(),
{
    String::from_str("Cannot download artifacts for a job that has not yet been completed")
}

/// Begins the fetching of the output artifacts of the job execution
/// `job_execution_id`.
pub fn download_output_artifacts(job_execution_id: String) -> (step: Step)
    ensures
        step@ == download_opening(job_execution_id@),
{
    Step {
        state: State::Download(DownloadStage::Finding),
        say: None,
        effect: Some(Effect::FindJobExecution { id: job_execution_id }),
    }
}

/// Goes on with the fetching of output artifacts after `outcome`.
pub fn continue_download(stage: DownloadStage, outcome: Outcome) -> (step: Option<Step>)
    ensures
        step_view(step) == download_step(stage@, outcome@),
{
    match stage {
        DownloadStage::Finding => match outcome {
            Outcome::Found { execution, completed } => {
                if completed {
                    Some(
                        Step {
                            state: State::Download(DownloadStage::MakingDirectory { execution }),
                            say: None,
                            effect: Some(
                                Effect::CreateDirectory {
                                    path: record_text(&execution),
                                    failure: String::from_str(
                                        "Could not create job output directory",
                                    ),
                                },
                            ),
                        },
                    )
                } else {
                    Some(
                        Step {
                            state: State::Finished,
                            say: None,
                            effect: Some(Effect::Abort { message: unfinished() }),
                        },
                    )
                }
            },
            _ => None,
        },
        DownloadStage::MakingDirectory { execution } => match outcome {
            Outcome::Completed => Some(
                Step {
                    state: State::Download(DownloadStage::Entering { execution }),
                    say: None,
                    effect: Some(
                        Effect::EnterDirectory {
                            path: record_text(&execution),
                            failure: String::from_str("Could not change directories"),
                        },
                    ),
                },
            ),
            _ => None,
        },
        DownloadStage::Entering { execution } => match outcome {
            Outcome::Completed => Some(
                Step {
                    state: State::Download(DownloadStage::Naming { execution }),
                    say: None,
                    effect: Some(Effect::NameOutputArtifacts),
                },
            ),
            _ => None,
        },
        DownloadStage::Naming { execution } => match outcome {
            Outcome::Named { artifact_type, status } => Some(
                Step {
                    state: State::Download(DownloadStage::Listing),
                    say: None,
                    effect: Some(
                        Effect::ListArtifacts {
                            filter: output_artifact_filter(
                                artifact_type.as_str(),
                                execution,
                                status.as_str(),
                            ),
                        },
                    ),
                },
            ),
            _ => None,
        },
        DownloadStage::Listing => match outcome {
            Outcome::Artifacts(ids) => {
                let downloads = plan_downloads(&ids);
                assert(ids@.map_values(|id: RecordId| download_of(id@)) =~= ids@.map_values(
                    |id: RecordId| id@,
                ).map_values(|id: Seq<u8>| download_of(id)));
                Some(
                    Step {
                        state: State::Download(DownloadStage::Fetching),
                        say: None,
                        effect: Some(
                            Effect::FetchArtifacts {
                                downloads,
                                failure: String::from_str("Could not upload ouput artifact"),
                            },
                        ),
                    },
                )
            },
            _ => None,
        },
        DownloadStage::Fetching => match outcome {
            Outcome::Completed => Some(Step { state: State::Finished, say: None, effect: None }),
            _ => None,
        },
    }
}

} // verus!
