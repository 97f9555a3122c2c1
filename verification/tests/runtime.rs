use dice_cli::plan::{Effect, Outcome};
use dice_cli::runtime::{continue_runtime, create_runtime};
use dice_cli::state::{RuntimeStage, State, Step};
use dice_cli::tool::{build_runtime, clean_runtime};

fn text(value: &str) -> String {
    value.to_string()
}

fn probing() -> RuntimeStage {
    RuntimeStage::Probing { name: text("rt"), project_id: text("p1") }
}

fn runtime_listing() -> Outcome {
    Outcome::Listed(Some(vec![text("./Makefile"), text("./.dice")]))
}

#[test]
fn runtime_begins_by_listing_the_current_directory() {
    assert_eq!(
        create_runtime(text("rt"), text("p1")),
        Step {
            state: State::Runtime(probing()),
            say: None,
            effect: Some(Effect::ListDirectory { root: text(".") }),
        }
    );
}

#[test]
fn runtime_outside_a_repository_ends_at_once() {
    let step = continue_runtime(probing(), Outcome::Listed(Some(vec![text("./src")])));
    assert_eq!(
        step,
        Some(Step {
            state: State::Finished,
            say: Some(text("NOT IN A DICE RUNTIME")),
            effect: None,
        })
    );
}

#[test]
fn runtime_in_an_unreadable_directory_ends_at_once() {
    let step = continue_runtime(probing(), Outcome::Listed(None));
    assert_eq!(
        step,
        Some(Step {
            state: State::Finished,
            say: Some(text("NOT IN A DICE RUNTIME")),
            effect: None,
        })
    );
}

#[test]
fn runtime_in_a_repository_is_cleaned_first() {
    let step = continue_runtime(probing(), runtime_listing());
    assert_eq!(
        step,
        Some(Step {
            state: State::Runtime(RuntimeStage::Cleaning {
                name: text("rt"),
                project_id: text("p1"),
            }),
            say: Some(text("Validated located in DICE runtime")),
            effect: Some(Effect::Run(clean_runtime())),
        })
    );
}

#[test]
fn runtime_is_built_after_cleaning() {
    let stage = RuntimeStage::Cleaning { name: text("rt"), project_id: text("p1") };
    assert_eq!(
        continue_runtime(stage, Outcome::Completed),
        Some(Step {
            state: State::Runtime(RuntimeStage::Building {
                name: text("rt"),
                project_id: text("p1"),
            }),
            say: None,
            effect: Some(Effect::Run(build_runtime())),
        })
    );
}

#[test]
fn runtime_is_registered_after_the_build() {
    let stage = RuntimeStage::Building { name: text("rt"), project_id: text("p1") };
    assert_eq!(
        continue_runtime(stage, Outcome::Completed),
        Some(Step {
            state: State::Runtime(RuntimeStage::Registering),
            say: Some(text("Runtime build completed")),
            effect: Some(Effect::RegisterRuntime { name: text("rt"), project_id: text("p1") }),
        })
    );
}

#[test]
fn runtime_archive_is_looked_for_after_registration() {
    let outcome = Outcome::Registered { id: text("r9"), uri: text("https://store/r9") };
    assert_eq!(
        continue_runtime(RuntimeStage::Registering, outcome),
        Some(Step {
            state: State::Runtime(RuntimeStage::Locating {
                id: text("r9"),
                uri: text("https://store/r9")
            }),
            say: None,
            effect: Some(Effect::CurrentDirectoryName),
        })
    );
}

#[test]
fn runtime_archive_lies_under_the_release_directory() {
    let stage = RuntimeStage::Locating { id: text("r9"), uri: text("https://store/r9") };
    assert_eq!(
        continue_runtime(stage, Outcome::DirectoryName(text("adder"))),
        Some(Step {
            state: State::Runtime(RuntimeStage::Uploading { id: text("r9") }),
            say: None,
            effect: Some(Effect::UploadFile {
                path: text("target/wasm32-wasi/release/adder.tar"),
                uri: text("https://store/r9"),
                open_failure: text("Could not open runtime file"),
                read_failure: text("Could not read runtime file"),
            }),
        })
    );
}

#[test]
fn runtime_is_activated_after_the_upload() {
    let stage = RuntimeStage::Uploading { id: text("r9") };
    assert_eq!(
        continue_runtime(stage, Outcome::Uploaded),
        Some(Step {
            state: State::Runtime(RuntimeStage::Activating { id: text("r9") }),
            say: Some(text("Successfully uploaded runtime")),
            effect: Some(Effect::ActivateRuntime { id: text("r9") }),
        })
    );
}

#[test]
fn runtime_is_not_activated_after_a_failed_upload() {
    let stage = RuntimeStage::Uploading { id: text("r9") };
    assert_eq!(
        continue_runtime(stage, Outcome::UploadFailed { reason: text("connection refused") }),
        Some(Step {
            state: State::Finished,
            say: Some(text("Could not upload runtime: connection refused")),
            effect: None,
        })
    );
}

#[test]
fn runtime_is_announced_after_activation() {
    let stage = RuntimeStage::Activating { id: text("r9") };
    assert_eq!(
        continue_runtime(stage, Outcome::Completed),
        Some(Step { state: State::Finished, say: Some(text("Created runtime: r9")), effect: None })
    );
}

#[test]
fn runtime_takes_no_outcome_of_another_kind() {
    assert_eq!(continue_runtime(probing(), Outcome::Completed), None);
    assert_eq!(continue_runtime(RuntimeStage::Registering, Outcome::Completed), None);
    assert_eq!(
        continue_runtime(RuntimeStage::Registering, Outcome::Created { id: text("r9") }),
        None
    );
    assert_eq!(
        continue_runtime(RuntimeStage::Uploading { id: text("r9") }, Outcome::Completed),
        None
    );
    assert_eq!(
        continue_runtime(RuntimeStage::Activating { id: text("r9") }, Outcome::Uploaded),
        None
    );
    let stage = RuntimeStage::Cleaning { name: text("rt"), project_id: text("p1") };
    assert_eq!(continue_runtime(stage, runtime_listing()), None);
}

#[test]
fn runtime_is_not_told_by_the_name_of_the_directory() {
    let listed = Outcome::Listed(Some(vec![text("proj.dice/README.md"), text("proj.dice/src")]));
    assert_eq!(
        continue_runtime(probing(), listed),
        Some(Step {
            state: State::Finished,
            say: Some(text("NOT IN A DICE RUNTIME")),
            effect: None,
        })
    );
}
