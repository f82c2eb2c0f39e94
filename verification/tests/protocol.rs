//! The exact requests the client builds for each endpoint.

use mlflow_rs::experiment::Experiment;
use mlflow_rs::request::{HttpMethod, HttpRequest, RequestBody};
use mlflow_rs::run::{Run, RunData, RunInfo, RunTag, Status};

fn body_bytes(r: &HttpRequest) -> Vec<u8> {
    match &r.body {
        RequestBody::Empty => Vec::new(),
        RequestBody::Json(b) => b.clone(),
        RequestBody::Raw(b) => b.clone(),
    }
}

fn sample_experiment() -> Experiment {
    Experiment {
        api_root: "http://localhost:5000".to_string(),
        experiment_id: "1".to_string(),
        name: "test".to_string(),
        artifact_location: "mlflow-artifacts:/1".to_string(),
        lifecycle_stage: "active".to_string(),
        last_update_time: 1700000000000,
        creation_time: 1690000000000,
    }
}

fn sample_run() -> Run {
    Run {
        api_root: "http://localhost:5000".to_string(),
        info: RunInfo {
            run_uuid: "e089ac98e5bf46bd9c952b50a6c27889".to_string(),
            experiment_id: "1".to_string(),
            run_name: "new run".to_string(),
            user_id: "user".to_string(),
            status: "RUNNING".to_string(),
            start_time: 1700000000000,
            artifact_uri: "mlflow-artifacts:/1/abc/artifacts".to_string(),
            lifecycle_stage: "active".to_string(),
            run_id: "e089ac98e5bf46bd9c952b50a6c27889".to_string(),
        },
        data: RunData { tags: Vec::new(), params: Vec::new() },
    }
}

#[test]
fn create_experiment_request_shape() {
    let r = Experiment::new("http://localhost:5000", "test");
    assert!(matches!(r.method, HttpMethod::Post));
    assert_eq!(r.url, "http://localhost:5000/api/2.0/mlflow/experiments/create");
    assert!(r.query.is_empty());
    assert_eq!(body_bytes(&r), br#"{"name":"test","tags":[]}"#.to_vec());
}

#[test]
fn create_experiment_escapes_name() {
    let r = Experiment::new("http://localhost:5000", "a\"b\\c\nd\te");
    assert_eq!(
        body_bytes(&r),
        br#"{"name":"a\"b\\c\nd\te","tags":[]}"#.to_vec()
    );
}

#[test]
fn create_experiment_escapes_control_characters() {
    let r = Experiment::new("http://localhost:5000", "a\u{1}b\u{1f}c");
    assert_eq!(
        body_bytes(&r),
        br#"{"name":"a\u0001b\u001fc","tags":[]}"#.to_vec()
    );
}

#[test]
fn escaping_agrees_with_the_json_codec() {
    let name = "q\"uo\\te\n\r\t\u{8}\u{c}\u{0}\u{1f}\u{7f} ünïcode";
    let r = Experiment::new("http://localhost:5000", name);
    let mut expected = br#"{"name":"#.to_vec();
    expected.extend_from_slice(serde_json::to_string(name).unwrap().as_bytes());
    expected.extend_from_slice(br#","tags":[]}"#);
    assert_eq!(body_bytes(&r), expected);
}

#[test]
fn search_with_id_request_shape() {
    let r = Experiment::search_with_id("http://localhost:5000", "1");
    assert!(matches!(r.method, HttpMethod::Get));
    assert_eq!(r.url, "http://localhost:5000/api/2.0/mlflow/experiments/get");
    assert_eq!(body_bytes(&r), br#"{"experiment_id":"1"}"#.to_vec());
}

#[test]
fn search_with_name_request_shape() {
    let r = Experiment::search_with_name("http://localhost:5000", "test");
    assert!(matches!(r.method, HttpMethod::Get));
    assert_eq!(
        r.url,
        "http://localhost:5000/api/2.0/mlflow/experiments/get-by-name"
    );
    assert_eq!(body_bytes(&r), br#"{"experiment_name":"test"}"#.to_vec());
}

#[test]
fn create_run_unchecked_body_without_tags() {
    let e = sample_experiment();
    let r = e.create_run_unchecked(Some("new run"), &Vec::new(), "abc123", 1700000000123);
    assert!(matches!(r.method, HttpMethod::Post));
    assert_eq!(r.url, "http://localhost:5000/api/2.0/mlflow/runs/create");
    assert_eq!(
        body_bytes(&r),
        br#"{"experiment_id":"1","run_name":"new run","start_time":1700000000123,"tags":[{"key":"mlflow.source.git.commit","value":"abc123"}]}"#.to_vec()
    );
}

#[test]
fn create_run_unchecked_body_with_tags_and_null_name() {
    let e = sample_experiment();
    let tags = vec![
        RunTag { key: "key".to_string(), value: "value".to_string() },
        RunTag { key: "k2".to_string(), value: "v2".to_string() },
    ];
    let r = e.create_run_unchecked(None, &tags, "abc123", 7);
    assert_eq!(
        body_bytes(&r),
        br#"{"experiment_id":"1","run_name":null,"start_time":7,"tags":[{"key":"key","value":"value"},{"key":"k2","value":"v2"},{"key":"mlflow.source.git.commit","value":"abc123"}]}"#.to_vec()
    );
}

#[test]
fn get_run_request_shape() {
    let r = Run::get_run("http://localhost:5000", "e089ac98e5bf46bd9c952b50a6c27889");
    assert!(matches!(r.method, HttpMethod::Get));
    assert_eq!(r.url, "http://localhost:5000/api/2.0/mlflow/runs/get");
    assert_eq!(
        body_bytes(&r),
        br#"{"run_id":"e089ac98e5bf46bd9c952b50a6c27889"}"#.to_vec()
    );
}

#[test]
fn end_run_request_carries_status_and_end_time() {
    let run = sample_run();
    let r = run.end_run(Status::Finished, 1700000001000);
    assert!(matches!(r.method, HttpMethod::Post));
    assert_eq!(r.url, "http://localhost:5000/api/2.0/mlflow/runs/update");
    assert_eq!(
        body_bytes(&r),
        br#"{"run_id":"e089ac98e5bf46bd9c952b50a6c27889","status":"FINISHED","end_time":1700000001000}"#.to_vec()
    );
}

#[test]
fn end_run_status_codes() {
    let run = sample_run();
    let killed = run.end_run(Status::Killed, 5);
    let failed = run.end_run(Status::Failed, 5);
    let killed_body = body_bytes(&killed);
    let failed_body = body_bytes(&failed);
    let killed_text = String::from_utf8(killed_body).unwrap();
    let failed_text = String::from_utf8(failed_body).unwrap();
    assert!(killed_text.contains(r#""status":"KILLED""#));
    assert!(failed_text.contains(r#""status":"FAILED""#));
}

#[test]
fn log_parameter_request_shape() {
    let run = sample_run();
    let r = run.log_parameter("learning_rate", "0.001");
    assert!(matches!(r.method, HttpMethod::Post));
    assert_eq!(
        r.url,
        "http://localhost:5000/api/2.0/mlflow/runs/log-parameter"
    );
    assert_eq!(
        body_bytes(&r),
        br#"{"run_id":"e089ac98e5bf46bd9c952b50a6c27889","key":"learning_rate","value":"0.001"}"#.to_vec()
    );
}

#[test]
fn list_artifacts_request_shape() {
    let run = sample_run();
    let r = run.list_artifacts("");
    assert!(matches!(r.method, HttpMethod::Get));
    assert_eq!(r.url, "http://localhost:5000/api/2.0/mlflow/artifacts/list");
    assert_eq!(
        body_bytes(&r),
        br#"{"run_id":"e089ac98e5bf46bd9c952b50a6c27889","path":""}"#.to_vec()
    );
}

#[test]
fn log_artifact_bytes_request_shape() {
    let run = sample_run();
    let r = run.log_artifact_bytes(b"test data".to_vec(), "test.txt");
    assert!(matches!(r.method, HttpMethod::Post));
    assert_eq!(
        r.url,
        "http://localhost:5000/ajax-api/2.0/mlflow/upload-artifact"
    );
    assert!(matches!(r.body, RequestBody::Raw(_)));
    assert_eq!(body_bytes(&r), b"test data".to_vec());
    assert_eq!(r.query.len(), 2);
    assert_eq!(r.query[0].0, "run_uuid");
    assert_eq!(r.query[0].1, "e089ac98e5bf46bd9c952b50a6c27889");
    assert_eq!(r.query[1].0, "path");
    assert_eq!(r.query[1].1, "test.txt");
}

#[test]
fn get_artifact_request_shape() {
    let run = sample_run();
    let r = run.get_artifact_as_bytes("log.log");
    assert!(matches!(r.method, HttpMethod::Get));
    assert_eq!(r.url, "http://localhost:5000/get-artifact");
    assert!(matches!(r.body, RequestBody::Empty));
    assert_eq!(r.query.len(), 2);
    assert_eq!(r.query[0].0, "path");
    assert_eq!(r.query[0].1, "log.log");
    assert_eq!(r.query[1].0, "run_uuid");
    assert_eq!(r.query[1].1, "e089ac98e5bf46bd9c952b50a6c27889");
}

#[test]
fn getters_reflect_fields() {
    let run = sample_run();
    assert_eq!(run.get_api_root(), "http://localhost:5000");
    assert_eq!(run.get_run_uuid(), "e089ac98e5bf46bd9c952b50a6c27889");
    assert_eq!(run.get_experiment_id(), "1");
    assert_eq!(run.get_run_name(), "new run");
    assert_eq!(run.get_user_id(), "user");
    assert_eq!(run.get_status(), "RUNNING");
    assert_eq!(run.get_start_time(), 1700000000000);
    assert_eq!(run.get_artifact_uri(), "mlflow-artifacts:/1/abc/artifacts");
    assert_eq!(run.get_lifecycle_stage(), "active");
    assert!(run.get_tags().is_empty());
    assert!(run.get_parameters().is_empty());

    let e = sample_experiment();
    assert_eq!(e.get_experiment_id(), "1");
    assert_eq!(e.get_name(), "test");
    assert_eq!(e.get_artifact_location(), "mlflow-artifacts:/1");
    assert_eq!(e.get_lifecycle_stage(), "active");
    assert_eq!(e.get_last_update_time(), 1700000000000);
    assert_eq!(e.get_creating_time(), 1690000000000);
}

#[test]
fn set_api_root_replaces_root() {
    let mut run = sample_run();
    run.set_api_root("http://other:5000");
    assert_eq!(run.get_api_root(), "http://other:5000");
    assert_eq!(run.get_run_uuid(), "e089ac98e5bf46bd9c952b50a6c27889");
}

#[test]
fn decimal_rendering_is_exact() {
    let mut out: Vec<u8> = Vec::new();
    mlflow_rs::text::push_dec_u64(&mut out, 0);
    out.push(b' ');
    mlflow_rs::text::push_dec_u64(&mut out, 10);
    out.push(b' ');
    mlflow_rs::text::push_dec_u64(&mut out, 18446744073709551615);
    assert_eq!(out, b"0 10 18446744073709551615".to_vec());
}
