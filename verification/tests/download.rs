use dice_cli::download::{
    continue_download, download_output_artifacts, plan_download, plan_downloads,
};
use dice_cli::filter::output_artifact_filter;
use dice_cli::ident::RecordId;
use dice_cli::plan::{ArtifactDownload, Effect, Outcome};
use dice_cli::state::{DownloadStage, State, Step};
use dice_cli::tool::ToolRun;
use mongodb::bson::oid::ObjectId;
use mongodb::bson::{Bson, Document};

const EXECUTION: RecordId =
    RecordId { bytes: [0x65, 0x4a, 0x0f, 0x00, 0xff, 0x10, 0x9b, 0xc2, 0x3d, 0x7e, 0x01, 0xa0] };
const EXECUTION_TEXT: &str = "654a0f00ff109bc23d7e01a0";

fn line(value: &str) -> String {
    value.to_string()
}

fn expected_download(hex: &str) -> ArtifactDownload {
    let archive = format!("{}.tar", hex);
    ArtifactDownload {
        artifact: line(hex),
        archive: archive.clone(),
        copy_failure: line("Could not copy artifact to file"),
        unpack: ToolRun {
            program: line("tar"),
            args: vec![line("-xvf"), archive.clone()],
            failure: line("Could not untar the output artifact"),
        },
        remove: ToolRun {
            program: line("rm"),
            args: vec![archive],
            failure: line("Could not delete tar file"),
        },
    }
}

#[test]
fn download_begins_by_getting_the_job_execution() {
    assert_eq!(
        download_output_artifacts(line("e1")),
        Step {
            state: State::Download(DownloadStage::Finding),
            say: None,
            effect: Some(Effect::FindJobExecution { id: line("e1") }),
        }
    );
}

#[test]
fn download_of_an_unfinished_job_execution_stops_the_client() {
    let outcome = Outcome::Found { execution: EXECUTION, completed: false };
    assert_eq!(
        continue_download(DownloadStage::Finding, outcome),
        Some(Step {
            state: State::Finished,
            say: None,
            effect: Some(Effect::Abort {
                message: line(
                    "Cannot download artifacts for a job that has not yet been completed"
                ),
            }),
        })
    );
}

#[test]
fn download_makes_a_directory_named_after_the_job_execution() {
    let outcome = Outcome::Found { execution: EXECUTION, completed: true };
    assert_eq!(
        continue_download(DownloadStage::Finding, outcome),
        Some(Step {
            state: State::Download(DownloadStage::MakingDirectory { execution: EXECUTION }),
            say: None,
            effect: Some(Effect::CreateDirectory {
                path: line(EXECUTION_TEXT),
                failure: line("Could not create job output directory"),
            }),
        })
    );
}

#[test]
fn download_enters_the_directory_it_made() {
    let stage = DownloadStage::MakingDirectory { execution: EXECUTION };
    assert_eq!(
        continue_download(stage, Outcome::Completed),
        Some(Step {
            state: State::Download(DownloadStage::Entering { execution: EXECUTION }),
            say: None,
            effect: Some(Effect::EnterDirectory {
                path: line(EXECUTION_TEXT),
                failure: line("Could not change directories"),
            }),
        })
    );
}

#[test]
fn download_asks_for_the_names_of_kind_and_status() {
    let stage = DownloadStage::Entering { execution: EXECUTION };
    assert_eq!(
        continue_download(stage, Outcome::Completed),
        Some(Step {
            state: State::Download(DownloadStage::Naming { execution: EXECUTION }),
            say: None,
            effect: Some(Effect::NameOutputArtifacts),
        })
    );
}

#[test]
fn download_lists_the_active_output_artifacts_of_the_job_execution() {
    let stage = DownloadStage::Naming { execution: EXECUTION };
    let outcome = Outcome::Named { artifact_type: line("\"output\""), status: line("\"active\"") };
    let mut filter = Document::new();
    filter.insert("artifact_type", "output");
    filter.insert("entity_id", ObjectId::from_bytes(EXECUTION.bytes));
    filter.insert("status", "active");
    assert_eq!(
        continue_download(stage, outcome),
        Some(Step {
            state: State::Download(DownloadStage::Listing),
            say: None,
            effect: Some(Effect::ListArtifacts { filter }),
        })
    );
}

#[test]
fn download_fetches_every_listed_artifact() {
    let first = RecordId { bytes: [0; 12] };
    let second = RecordId { bytes: [0xab; 12] };
    assert_eq!(
        continue_download(DownloadStage::Listing, Outcome::Artifacts(vec![first, second])),
        Some(Step {
            state: State::Download(DownloadStage::Fetching),
            say: None,
            effect: Some(Effect::FetchArtifacts {
                downloads: vec![
                    expected_download("000000000000000000000000"),
                    expected_download("abababababababababababab"),
                ],
                failure: line("Could not upload ouput artifact"),
            }),
        })
    );
}

#[test]
fn download_with_no_artifacts_fetches_nothing() {
    assert_eq!(
        continue_download(DownloadStage::Listing, Outcome::Artifacts(vec![])),
        Some(Step {
            state: State::Download(DownloadStage::Fetching),
            say: None,
            effect: Some(Effect::FetchArtifacts {
                downloads: vec![],
                failure: line("Could not upload ouput artifact"),
            }),
        })
    );
}

#[test]
fn download_ends_when_everything_is_fetched() {
    assert_eq!(
        continue_download(DownloadStage::Fetching, Outcome::Completed),
        Some(Step { state: State::Finished, say: None, effect: None })
    );
}

#[test]
fn download_takes_no_outcome_of_another_kind() {
    assert_eq!(continue_download(DownloadStage::Finding, Outcome::Completed), None);
    assert_eq!(continue_download(DownloadStage::Listing, Outcome::Completed), None);
    assert_eq!(continue_download(DownloadStage::Fetching, Outcome::Artifacts(vec![])), None);
    let stage = DownloadStage::Naming { execution: EXECUTION };
    assert_eq!(continue_download(stage, Outcome::Completed), None);
}

#[test]
fn one_download_is_named_after_the_artifact() {
    assert_eq!(plan_download(&EXECUTION), expected_download(EXECUTION_TEXT));
}

#[test]
fn identifier_text_has_two_lower_case_digits_for_each_byte() {
    let id = RecordId {
        bytes: [0x00, 0x01, 0x09, 0x0a, 0x0f, 0x10, 0x7f, 0x80, 0x9a, 0xa9, 0xf0, 0xff],
    };
    let download = plan_download(&id);
    assert_eq!(download.artifact, "0001090a0f107f809aa9f0ff");
    assert_eq!(download.artifact.len(), 24);
    assert_eq!(download.archive, "0001090a0f107f809aa9f0ff.tar");
}

#[test]
fn downloads_keep_the_order_of_the_artifacts() {
    let ids = vec![
        RecordId { bytes: [3; 12] },
        RecordId { bytes: [1; 12] },
        RecordId { bytes: [2; 12] },
    ];
    let downloads = plan_downloads(&ids);
    assert_eq!(downloads.len(), 3);
    assert_eq!(downloads[0].artifact, "030303030303030303030303");
    assert_eq!(downloads[1].artifact, "010101010101010101010101");
    assert_eq!(downloads[2].artifact, "020202020202020202020202");
}

#[test]
fn filter_holds_the_three_fields() {
    let filter = output_artifact_filter("\"output\"", EXECUTION, "\"active\"");
    assert_eq!(filter.len(), 3);
    assert_eq!(filter.get_str("artifact_type"), Ok("output"));
    assert_eq!(filter.get_object_id("entity_id"), Ok(ObjectId::from_bytes(EXECUTION.bytes)));
    assert_eq!(filter.get_str("status"), Ok("active"));
}

#[test]
fn filter_fields_come_in_the_order_kind_entity_status() {
    let filter = output_artifact_filter("output", EXECUTION, "active");
    let keys: Vec<&String> = filter.keys().collect();
    assert_eq!(keys, vec!["artifact_type", "entity_id", "status"]);
}

#[test]
fn filter_entity_is_an_identifier_and_no_string() {
    let filter = output_artifact_filter("\"output\"", EXECUTION, "\"active\"");
    assert_eq!(
        filter.get("entity_id"),
        Some(&Bson::ObjectId(ObjectId::from_bytes(EXECUTION.bytes)))
    );
    assert!(filter.get_str("entity_id").is_err());
}

#[test]
fn filter_keeps_names_that_have_no_quotes() {
    let filter = output_artifact_filter("Output", EXECUTION, "");
    assert_eq!(filter.get_str("artifact_type"), Ok("Output"));
    assert_eq!(filter.get_str("status"), Ok(""));
}
