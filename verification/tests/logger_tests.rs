//! The logger buffer: line format, text conversion, and the upload request.

use mlflow_rs::logger::{ExperimentLogger, LogLevel};
use mlflow_rs::run::{Run, RunData, RunInfo};

fn sample_run() -> Run {
    Run {
        api_root: "http://localhost:5000".to_string(),
        info: RunInfo {
            run_uuid: "abc".to_string(),
            experiment_id: "1".to_string(),
            run_name: "r".to_string(),
            user_id: "u".to_string(),
            status: "RUNNING".to_string(),
            start_time: 1,
            artifact_uri: "x".to_string(),
            lifecycle_stage: "active".to_string(),
            run_id: "abc".to_string(),
        },
        data: RunData { tags: Vec::new(), params: Vec::new() },
    }
}

#[test]
fn log_lines_follow_the_fixed_format() {
    let mut logger = ExperimentLogger::build();
    logger.log_line("2024-01-01T00:00:00.000+00:00", LogLevel::Info, "info message");
    logger.log_line("2024-01-01T00:00:00.001+00:00", LogLevel::Error, "error message");
    let expected = "[2024-01-01T00:00:00.000+00:00][INFO ]: info message\n\
                    [2024-01-01T00:00:00.001+00:00][ERROR]: error message\n";
    assert_eq!(logger.contents().as_slice(), expected.as_bytes());
}

#[test]
fn level_labels_are_padded_to_five_columns() {
    assert_eq!(LogLevel::Error.label(), "ERROR");
    assert_eq!(LogLevel::Warn.label(), "WARN ");
    assert_eq!(LogLevel::Info.label(), "INFO ");
    assert_eq!(LogLevel::Debug.label(), "DEBUG");
    assert_eq!(LogLevel::Trace.label(), "TRACE");
}

#[test]
fn to_string_decodes_the_buffer() {
    let mut logger = ExperimentLogger::build();
    logger.log_line("t", LogLevel::Warn, "watch out");
    assert_eq!(logger.to_string(), "[t][WARN ]: watch out\n");
}

#[test]
fn to_string_reports_undecodable_bytes_in_band() {
    let logger = ExperimentLogger { log: vec![0xff, 0xfe] };
    assert_eq!(logger.to_string(), "Error: could not convert Vec<u8> to String");
}

#[test]
fn log_logger_uploads_the_buffer_as_the_conventional_log_artifact() {
    let mut logger = ExperimentLogger::build();
    logger.log_line("t", LogLevel::Info, "hello");
    let run = sample_run();
    let request = run.log_logger(&logger);
    assert_eq!(request.url, "http://localhost:5000/ajax-api/2.0/mlflow/upload-artifact");
    assert_eq!(request.query[0].0, "run_uuid");
    assert_eq!(request.query[0].1, "abc");
    assert_eq!(request.query[1].0, "path");
    assert_eq!(request.query[1].1, "log.log");
    match request.body {
        mlflow_rs::request::RequestBody::Raw(b) => {
            assert_eq!(b.as_slice(), b"[t][INFO ]: hello\n");
        }
        _ => panic!("the log artifact must be uploaded as raw bytes"),
    }
}
