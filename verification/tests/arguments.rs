use dice_cli::arguments::{select_command, Arguments, Command, MissingOption};

fn no_arguments() -> Arguments {
    Arguments {
        create_runtime: false,
        create_input_artifact: false,
        create_project: false,
        create_job: false,
        create_job_execution: false,
        get_job_execution: false,
        list_notifications: false,
        download_output_artifacts: false,
        name: None,
        description: None,
        project_id: None,
        job_id: None,
        job_execution_id: None,
        runtime_id: None,
        input_artifact_ids: None,
        file: None,
    }
}

fn all_values() -> Arguments {
    Arguments {
        name: Some("rt".to_string()),
        description: Some("a project".to_string()),
        project_id: Some("p1".to_string()),
        job_id: Some("j1".to_string()),
        job_execution_id: Some("e1".to_string()),
        runtime_id: Some("r1".to_string()),
        input_artifact_ids: Some(vec!["a1".to_string(), "a2".to_string()]),
        file: Some("data.csv".to_string()),
        ..no_arguments()
    }
}

#[test]
fn no_flag_selects_nothing() {
    assert_eq!(select_command(no_arguments()), Ok(None));
    assert_eq!(select_command(all_values()), Ok(None));
}

#[test]
fn list_notifications_selects_nothing() {
    let args = Arguments { list_notifications: true, ..all_values() };
    assert_eq!(select_command(args), Ok(None));
}

#[test]
fn create_runtime_takes_name_and_project() {
    let args = Arguments { create_runtime: true, ..all_values() };
    assert_eq!(
        select_command(args),
        Ok(Some(Command::CreateRuntime { name: "rt".to_string(), project_id: "p1".to_string() }))
    );
}

#[test]
fn create_runtime_misses_name_first() {
    let args = Arguments { create_runtime: true, ..no_arguments() };
    assert_eq!(select_command(args), Err(MissingOption::Name));
    let args = Arguments { create_runtime: true, name: None, ..all_values() };
    assert_eq!(select_command(args), Err(MissingOption::Name));
}

#[test]
fn create_runtime_misses_project() {
    let args = Arguments { create_runtime: true, project_id: None, ..all_values() };
    assert_eq!(select_command(args), Err(MissingOption::ProjectId));
}

#[test]
fn create_input_artifact_takes_project_and_file() {
    let args = Arguments { create_input_artifact: true, ..all_values() };
    assert_eq!(
        select_command(args),
        Ok(Some(Command::CreateInputArtifact {
            project_id: "p1".to_string(),
            file: "data.csv".to_string()
        }))
    );
}

#[test]
fn create_input_artifact_misses_project_first() {
    let args = Arguments { create_input_artifact: true, ..no_arguments() };
    assert_eq!(select_command(args), Err(MissingOption::ProjectId));
}

#[test]
fn create_input_artifact_misses_file() {
    let args = Arguments { create_input_artifact: true, file: None, ..all_values() };
    assert_eq!(select_command(args), Err(MissingOption::File));
}

#[test]
fn create_project_takes_description() {
    let args = Arguments { create_project: true, ..all_values() };
    assert_eq!(
        select_command(args),
        Ok(Some(Command::CreateProject { description: "a project".to_string() }))
    );
}

#[test]
fn create_project_misses_description() {
    let args = Arguments { create_project: true, description: None, ..all_values() };
    assert_eq!(select_command(args), Err(MissingOption::Description));
}

#[test]
fn create_job_takes_project_runtime_and_inputs() {
    let args = Arguments { create_job: true, ..all_values() };
    assert_eq!(
        select_command(args),
        Ok(Some(Command::CreateJob {
            project_id: "p1".to_string(),
            runtime_id: "r1".to_string(),
            input_artifact_ids: vec!["a1".to_string(), "a2".to_string()],
        }))
    );
}

#[test]
fn create_job_misses_its_values_in_order() {
    let args = Arguments { create_job: true, ..no_arguments() };
    assert_eq!(select_command(args), Err(MissingOption::ProjectId));
    let args =
        Arguments { create_job: true, runtime_id: None, input_artifact_ids: None, ..all_values() };
    assert_eq!(select_command(args), Err(MissingOption::RuntimeId));
    let args = Arguments { create_job: true, input_artifact_ids: None, ..all_values() };
    assert_eq!(select_command(args), Err(MissingOption::InputArtifactIds));
}

#[test]
fn create_job_with_no_inputs_listed() {
    let args = Arguments { create_job: true, input_artifact_ids: Some(vec![]), ..all_values() };
    assert_eq!(
        select_command(args),
        Ok(Some(Command::CreateJob {
            project_id: "p1".to_string(),
            runtime_id: "r1".to_string(),
            input_artifact_ids: vec![],
        }))
    );
}

#[test]
fn create_job_execution_takes_job() {
    let args = Arguments { create_job_execution: true, ..all_values() };
    assert_eq!(
        select_command(args),
        Ok(Some(Command::CreateJobExecution { job_id: "j1".to_string() }))
    );
    let args = Arguments { create_job_execution: true, job_id: None, ..all_values() };
    assert_eq!(select_command(args), Err(MissingOption::JobId));
}

#[test]
fn get_job_execution_takes_job_execution() {
    let args = Arguments { get_job_execution: true, ..all_values() };
    assert_eq!(
        select_command(args),
        Ok(Some(Command::GetJobExecution { job_execution_id: "e1".to_string() }))
    );
    let args = Arguments { get_job_execution: true, job_execution_id: None, ..all_values() };
    assert_eq!(select_command(args), Err(MissingOption::JobExecutionId));
}

#[test]
fn download_output_artifacts_takes_job_execution() {
    let args = Arguments { download_output_artifacts: true, ..all_values() };
    assert_eq!(
        select_command(args),
        Ok(Some(Command::DownloadOutputArtifacts { job_execution_id: "e1".to_string() }))
    );
    let args =
        Arguments { download_output_artifacts: true, job_execution_id: None, ..all_values() };
    assert_eq!(select_command(args), Err(MissingOption::JobExecutionId));
}

#[test]
fn the_first_flag_in_order_wins() {
    let args = Arguments {
        create_runtime: true,
        create_input_artifact: true,
        create_project: true,
        create_job: true,
        create_job_execution: true,
        get_job_execution: true,
        list_notifications: true,
        download_output_artifacts: true,
        ..all_values()
    };
    assert_eq!(
        select_command(args),
        Ok(Some(Command::CreateRuntime { name: "rt".to_string(), project_id: "p1".to_string() }))
    );
    let args = Arguments {
        create_job: true,
        get_job_execution: true,
        download_output_artifacts: true,
        ..all_values()
    };
    assert!(matches!(select_command(args), Ok(Some(Command::CreateJob { .. }))));
    let args =
        Arguments { get_job_execution: true, download_output_artifacts: true, ..all_values() };
    assert!(matches!(select_command(args), Ok(Some(Command::GetJobExecution { .. }))));
}

#[test]
fn a_later_flag_does_not_make_up_for_a_missing_value() {
    let args = Arguments { create_runtime: true, create_project: true, name: None, ..all_values() };
    assert_eq!(select_command(args), Err(MissingOption::Name));
}

#[test]
fn each_missing_value_has_its_message() {
    assert_eq!(MissingOption::Name.message(), "--name required");
    assert_eq!(MissingOption::Description.message(), "--description required");
    assert_eq!(MissingOption::ProjectId.message(), "--project-id required");
    assert_eq!(MissingOption::JobId.message(), "--job-id required");
    assert_eq!(MissingOption::JobExecutionId.message(), "--job-execution-id required");
    assert_eq!(MissingOption::RuntimeId.message(), "--runtime-id required");
    assert_eq!(MissingOption::InputArtifactIds.message(), "--input-artifact-ids required");
    assert_eq!(MissingOption::File.message(), "--file required");
}
