//! A run: one tracked execution attempt.
//!
//! The struct mirrors what the service knows about a run; every mutation goes
//! through a request built here and a response applied here.  A run's status
//! is monotonic: once it carries a terminal status, no further update request
//! can be built for it.

use vstd::prelude::*;
use crate::client::decode_checked_response;
use crate::errors::ClientError;
use crate::client::envelope_of;
use crate::json::{get_bool_field, get_string_field, get_u64_field, json_as_array, json_get, json_ok};
use crate::logger::ExperimentLogger;
use crate::request::{
    append_json_string, append_str, endpoint_url, json_quoted, HttpMethod, HttpRequest,
    RequestBody,
};
use crate::text::{dec_digits, utf8_to_string};

verus! {

use vstd::string::StringSliceAdditionalSpecFns;
use vstd::string::StringExecFns;
use vstd::utf8::{decode_utf8, encode_utf8, valid_utf8};

/// A terminal status a run can be finalized with.
#[derive(Clone, Copy, PartialEq, Eq, Structural, Debug)]
pub enum Status {
    Finished,
    Killed,
    Failed,
}

impl Status {
    /// The status code the protocol uses on the wire.
    pub open spec fn spec_code(self) -> Seq<char> {
        match self {
            Status::Finished => "FINISHED"@,
            Status::Killed => "KILLED"@,
            Status::Failed => "FAILED"@,
        }
    }

    pub fn as_code(&self) -> (r: &'static str)
        ensures
            r@ == self.spec_code(),
    {
        match self {
            Status::Finished => "FINISHED",
            Status::Killed => "KILLED",
            Status::Failed => "FAILED",
        }
    }
}

/// A status string is terminal when no further transition is permitted.
pub open spec fn is_terminal_status(s: Seq<char>) -> bool {
    s == "FINISHED"@ || s == "FAILED"@ || s == "KILLED"@
}

/// Law: every status a finalize can carry is terminal, so a run whose cached
/// status echoes a finalize admits no further `end_run` request.
pub proof fn lemma_finalize_statuses_are_terminal(status: Status)
    ensures
        is_terminal_status(status.spec_code()),
{
}

/// An appended key/value tag on a run.
pub struct RunTag {
    pub key: String,
    pub value: String,
}

/// A logged parameter of a run.
pub struct RunParameters {
    pub key: String,
    pub value: String,
}

/// One entry of a run's artifact listing.
pub struct ArtifactInfo {
    pub path: String,
    pub is_dir: bool,
}

/// The service-owned attributes of a run.
pub struct RunInfo {
    pub run_uuid: String,
    pub experiment_id: String,
    pub run_name: String,
    pub user_id: String,
    pub status: String,
    pub start_time: u64,
    pub artifact_uri: String,
    pub lifecycle_stage: String,
    pub run_id: String,
}

/// The appendable data of a run.
pub struct RunData {
    pub tags: Vec<RunTag>,
    pub params: Vec<RunParameters>,
}

/// One tracked execution attempt under an experiment.
pub struct Run {
    pub api_root: String,
    pub info: RunInfo,
    pub data: RunData,
}

/// Body of the request that fetches a run.
pub open spec fn get_run_body(run_id: Seq<char>) -> Seq<u8> {
    "{\"run_id\":".spec_bytes() + json_quoted(encode_utf8(run_id)) + "}".spec_bytes()
}

/// Body of the request that finalizes a run.
pub open spec fn update_run_body(run_id: Seq<char>, status: Status, end_time: nat) -> Seq<u8> {
    "{\"run_id\":".spec_bytes() + json_quoted(encode_utf8(run_id)) + ",\"status\":\"".spec_bytes()
        + encode_utf8(status.spec_code()) + "\",\"end_time\":".spec_bytes() + dec_digits(end_time)
        + "}".spec_bytes()
}

/// Body of the request that logs one parameter.
pub open spec fn log_parameter_body(run_id: Seq<char>, key: Seq<char>, value: Seq<char>) -> Seq<
    u8,
> {
    "{\"run_id\":".spec_bytes() + json_quoted(encode_utf8(run_id)) + ",\"key\":".spec_bytes()
        + json_quoted(encode_utf8(key)) + ",\"value\":".spec_bytes() + json_quoted(
        encode_utf8(value),
    ) + "}".spec_bytes()
}

/// Body of the request that lists artifacts under a prefix.
pub open spec fn list_artifacts_body(run_id: Seq<char>, path: Seq<char>) -> Seq<u8> {
    "{\"run_id\":".spec_bytes() + json_quoted(encode_utf8(run_id)) + ",\"path\":".spec_bytes()
        + json_quoted(encode_utf8(path)) + "}".spec_bytes()
}

impl Run {
    /// The run already carries a terminal status; no further transition is
    /// permitted.
    pub open spec fn finalized(&self) -> bool {
        is_terminal_status(self.info.status@)
    }

    /// The request that fetches the run with this identifier; the body the
    /// transport returns goes through `run_from_response`.
    pub fn get_run(api_root: &str, run_id: &str) -> (r: HttpRequest)
        ensures
            r.method == HttpMethod::Get,
            r.url@ == api_root@ + "/api/2.0/mlflow/runs/get"@,
            r.query@.len() == 0,
            r.is_json(),
            r.body_bytes() == get_run_body(run_id@),
    {
        let mut body: Vec<u8> = Vec::new();
        append_str(&mut body, "{\"run_id\":");
        append_json_string(&mut body, run_id);
        append_str(&mut body, "}");
        assert(body@ =~= get_run_body(run_id@));
        HttpRequest {
            method: HttpMethod::Get,
            url: endpoint_url(api_root, "/api/2.0/mlflow/runs/get"),
            query: Vec::new(),
            body: RequestBody::Json(body),
        }
    }

    /// The run parsed out of a checked `runs/get` or `runs/create` response
    /// body, with its API root set to the root it was fetched from.
    pub fn run_from_response(api_root: &str, response: &str) -> (r: Result<Run, ClientError>)
        ensures
            r matches Ok(run) ==> run.api_root@ == api_root@,
            r matches Err(e) ==> (e is Service || e is Decode),
            envelope_of(response@) is Some ==> r is Err,
            !json_ok(response@) ==> r is Err,
    {
        let parsed = decode_checked_response(response)?;
        let run_value = match json_get(&parsed, "run") {
            Some(v) => v,
            None => {
                return Err(decode_error("response carries no run object"));
            },
        };
        let info = match json_get(run_value, "info") {
            Some(v) => parse_run_info(v)?,
            None => {
                return Err(decode_error("run object carries no info"));
            },
        };
        let data = match json_get(run_value, "data") {
            Some(v) => parse_run_data(v)?,
            None => {
                return Err(decode_error("run object carries no data"));
            },
        };
        let mut run = Run { api_root: String::new(), info, data };
        run.set_api_root(api_root);
        Ok(run)
    }

    /// The request that finalizes this run with `status` and the given end
    /// timestamp (epoch milliseconds).  Only one finalize is permitted per run
    /// instance, so the run must not already be terminal.
    pub fn end_run(&self, status: Status, end_time_ms: u64) -> (r: HttpRequest)
        requires
            !self.finalized(),
        ensures
            r.method == HttpMethod::Post,
            r.url@ == self.api_root@ + "/api/2.0/mlflow/runs/update"@,
            r.query@.len() == 0,
            r.is_json(),
            r.body_bytes() == update_run_body(self.info.run_id@, status, end_time_ms as nat),
    {
        let mut body: Vec<u8> = Vec::new();
        append_str(&mut body, "{\"run_id\":");
        append_json_string(&mut body, self.info.run_id.as_str());
        append_str(&mut body, ",\"status\":\"");
        append_str(&mut body, status.as_code());
        append_str(&mut body, "\",\"end_time\":");
        crate::text::push_dec_u64(&mut body, end_time_ms);
        append_str(&mut body, "}");
        assert(body@ =~= update_run_body(self.info.run_id@, status, end_time_ms as nat));
        HttpRequest {
            method: HttpMethod::Post,
            url: endpoint_url(self.api_root.as_str(), "/api/2.0/mlflow/runs/update"),
            query: Vec::new(),
            body: RequestBody::Json(body),
        }
    }

    /// The authoritative run attributes carried by a checked `runs/update`
    /// response body.
    pub fn parse_update_response(response: &str) -> (r: Result<RunInfo, ClientError>)
        ensures
            r matches Err(e) ==> (e is Service || e is Decode),
            envelope_of(response@) is Some ==> r is Err,
            !json_ok(response@) ==> r is Err,
    {
        let parsed = decode_checked_response(response)?;
        match json_get(&parsed, "run_info") {
            Some(v) => parse_run_info(v),
            None => Err(decode_error("response carries no run_info object")),
        }
    }

    /// Overwrites the locally cached attributes with the backend's
    /// authoritative run-info; nothing else changes.
    pub fn apply_info(&mut self, info: RunInfo)
        ensures
            final(self).info == info,
            final(self).api_root == old(self).api_root,
            final(self).data == old(self).data,
    {
        self.info = info;
    }

    /// The request that logs one key/value parameter on this run.
    pub fn log_parameter(&self, key: &str, value: &str) -> (r: HttpRequest)
        ensures
            r.method == HttpMethod::Post,
            r.url@ == self.api_root@ + "/api/2.0/mlflow/runs/log-parameter"@,
            r.query@.len() == 0,
            r.is_json(),
            r.body_bytes() == log_parameter_body(self.info.run_id@, key@, value@),
    {
        let mut body: Vec<u8> = Vec::new();
        append_str(&mut body, "{\"run_id\":");
        append_json_string(&mut body, self.info.run_id.as_str());
        append_str(&mut body, ",\"key\":");
        append_json_string(&mut body, key);
        append_str(&mut body, ",\"value\":");
        append_json_string(&mut body, value);
        append_str(&mut body, "}");
        assert(body@ =~= log_parameter_body(self.info.run_id@, key@, value@));
        HttpRequest {
            method: HttpMethod::Post,
            url: endpoint_url(self.api_root.as_str(), "/api/2.0/mlflow/runs/log-parameter"),
            query: Vec::new(),
            body: RequestBody::Json(body),
        }
    }

    /// The request that lists this run's artifacts under a path prefix; the
    /// response body goes through `parse_artifact_list`.
    pub fn list_artifacts(&self, prefix: &str) -> (r: HttpRequest)
        ensures
            r.method == HttpMethod::Get,
            r.url@ == self.api_root@ + "/api/2.0/mlflow/artifacts/list"@,
            r.query@.len() == 0,
            r.is_json(),
            r.body_bytes() == list_artifacts_body(self.info.run_id@, prefix@),
    {
        let mut body: Vec<u8> = Vec::new();
        append_str(&mut body, "{\"run_id\":");
        append_json_string(&mut body, self.info.run_id.as_str());
        append_str(&mut body, ",\"path\":");
        append_json_string(&mut body, prefix);
        append_str(&mut body, "}");
        assert(body@ =~= list_artifacts_body(self.info.run_id@, prefix@));
        HttpRequest {
            method: HttpMethod::Get,
            url: endpoint_url(self.api_root.as_str(), "/api/2.0/mlflow/artifacts/list"),
            query: Vec::new(),
            body: RequestBody::Json(body),
        }
    }

    /// The artifact listing parsed out of a checked `artifacts/list` response
    /// body.
    pub fn parse_artifact_list(response: &str) -> (r: Result<Vec<ArtifactInfo>, ClientError>)
        ensures
            r matches Err(e) ==> (e is Service || e is Decode),
            envelope_of(response@) is Some ==> r is Err,
            !json_ok(response@) ==> r is Err,
    {
        let parsed = decode_checked_response(response)?;
        let files = match json_get(&parsed, "files") {
            Some(v) => v,
            None => {
                return Err(decode_error("response carries no files array"));
            },
        };
        let entries = match json_as_array(files) {
            Some(v) => v,
            None => {
                return Err(decode_error("files is not an array"));
            },
        };
        let mut out: Vec<ArtifactInfo> = Vec::new();
        let len = entries.len();
        let mut i: usize = 0;
        while i < len
            invariant
                0 <= i <= len,
                len == entries@.len(),
            decreases len - i,
        {
            let entry = &entries[i];
            let path = match get_string_field(entry, "path") {
                Some(s) => s,
                None => {
                    return Err(decode_error("artifact entry carries no path"));
                },
            };
            let is_dir = match get_bool_field(entry, "is_dir") {
                Some(b) => b,
                None => {
                    return Err(decode_error("artifact entry carries no is_dir"));
                },
            };
            out.push(ArtifactInfo { path, is_dir });
            i += 1;
        }
        Ok(out)
    }

    /// The request that uploads `data` as an artifact of this run at the given
    /// destination path.
    pub fn log_artifact_bytes(&self, data: Vec<u8>, path_destination: &str) -> (r: HttpRequest)
        ensures
            r.method == HttpMethod::Post,
            r.url@ == self.api_root@ + "/ajax-api/2.0/mlflow/upload-artifact"@,
            r.is_raw(),
            r.body_bytes() == data@,
            r.query@.len() == 2,
            r.query@[0].0@ == "run_uuid"@,
            r.query@[0].1@ == self.info.run_id@,
            r.query@[1].0@ == "path"@,
            r.query@[1].1@ == path_destination@,
    {
        let mut query: Vec<(String, String)> = Vec::new();
        query.push((String::from_str("run_uuid"), self.info.run_id.clone()));
        query.push((String::from_str("path"), String::from_str(path_destination)));
        HttpRequest {
            method: HttpMethod::Post,
            url: endpoint_url(self.api_root.as_str(), "/ajax-api/2.0/mlflow/upload-artifact"),
            query,
            body: RequestBody::Raw(data),
        }
    }

    /// The request that uploads the logger's accumulated lines as this run's
    /// conventional log artifact.
    pub fn log_logger(&self, logger: &ExperimentLogger) -> (r: HttpRequest)
        ensures
            r.method == HttpMethod::Post,
            r.url@ == self.api_root@ + "/ajax-api/2.0/mlflow/upload-artifact"@,
            r.is_raw(),
            r.body_bytes() == logger.log@,
            r.query@.len() == 2,
            r.query@[0].0@ == "run_uuid"@,
            r.query@[0].1@ == self.info.run_id@,
            r.query@[1].0@ == "path"@,
            r.query@[1].1@ == "log.log"@,
    {
        self.log_artifact_bytes(logger.contents_vec(), "log.log")
    }

    /// The request that downloads the artifact stored at `path` for this run;
    /// the response body bytes are the artifact itself.
    pub fn get_artifact_as_bytes(&self, path: &str) -> (r: HttpRequest)
        ensures
            r.method == HttpMethod::Get,
            r.url@ == self.api_root@ + "/get-artifact"@,
            r.body is Empty,
            r.query@.len() == 2,
            r.query@[0].0@ == "path"@,
            r.query@[0].1@ == path@,
            r.query@[1].0@ == "run_uuid"@,
            r.query@[1].1@ == self.info.run_id@,
    {
        let mut query: Vec<(String, String)> = Vec::new();
        query.push((String::from_str("path"), String::from_str(path)));
        query.push((String::from_str("run_uuid"), self.info.run_id.clone()));
        HttpRequest {
            method: HttpMethod::Get,
            url: endpoint_url(self.api_root.as_str(), "/get-artifact"),
            query,
            body: RequestBody::Empty,
        }
    }

    /// The downloaded artifact bytes as text: succeeds exactly on valid UTF-8.
    pub fn get_artifact_as_string(bytes: Vec<u8>) -> (r: Result<String, ClientError>)
        ensures
            r is Ok <==> valid_utf8(bytes@),
            r matches Ok(s) ==> s@ == decode_utf8(bytes@),
            r matches Err(e) ==> e is Decode,
    {
        match utf8_to_string(bytes) {
            Some(s) => Ok(s),
            None => Err(decode_error("artifact is not valid UTF-8")),
        }
    }

    pub fn get_api_root(&self) -> (r: &str)
        ensures
            r@ == self.api_root@,
    {
        self.api_root.as_str()
    }

    pub fn set_api_root(&mut self, api_root: &str)
        ensures
            final(self).api_root@ == api_root@,
            final(self).info == old(self).info,
            final(self).data == old(self).data,
    {
        self.api_root = String::from_str(api_root);
    }

    pub fn get_run_uuid(&self) -> (r: &str)
        ensures
            r@ == self.info.run_uuid@,
    {
        self.info.run_uuid.as_str()
    }

    pub fn get_experiment_id(&self) -> (r: &str)
        ensures
            r@ == self.info.experiment_id@,
    {
        self.info.experiment_id.as_str()
    }

    pub fn get_run_name(&self) -> (r: &str)
        ensures
            r@ == self.info.run_name@,
    {
        self.info.run_name.as_str()
    }

    pub fn get_user_id(&self) -> (r: &str)
        ensures
            r@ == self.info.user_id@,
    {
        self.info.user_id.as_str()
    }

    pub fn get_status(&self) -> (r: &str)
        ensures
            r@ == self.info.status@,
    {
        self.info.status.as_str()
    }

    pub fn get_start_time(&self) -> (r: u64)
        ensures
            r == self.info.start_time,
    {
        self.info.start_time
    }

    pub fn get_artifact_uri(&self) -> (r: &str)
        ensures
            r@ == self.info.artifact_uri@,
    {
        self.info.artifact_uri.as_str()
    }

    pub fn get_lifecycle_stage(&self) -> (r: &str)
        ensures
            r@ == self.info.lifecycle_stage@,
    {
        self.info.lifecycle_stage.as_str()
    }

    pub fn get_tags(&self) -> (r: &Vec<RunTag>)
        ensures
            r == &self.data.tags,
    {
        &self.data.tags
    }

    pub fn get_parameters(&self) -> (r: &Vec<RunParameters>)
        ensures
            r == &self.data.params,
    {
        &self.data.params
    }
}

/// A `Decode` error with a fixed description.
fn decode_error(what: &str) -> (r: ClientError)
    ensures
        r is Decode,
{
    ClientError::Decode(String::from_str(what))
}

/// The run attributes parsed out of a JSON `info` (or `run_info`) object.
/// Every field is required except that missing strings fail, mirroring the
/// response schema.
fn parse_run_info(v: &serde_json::Value) -> (r: Result<RunInfo, ClientError>)
    ensures
        r matches Err(e) ==> e is Decode,
{
    let run_uuid = match get_string_field(v, "run_uuid") {
        Some(s) => s,
        None => {
            return Err(decode_error("run info carries no run_uuid"));
        },
    };
    let experiment_id = match get_string_field(v, "experiment_id") {
        Some(s) => s,
        None => {
            return Err(decode_error("run info carries no experiment_id"));
        },
    };
    let run_name = match get_string_field(v, "run_name") {
        Some(s) => s,
        None => {
            return Err(decode_error("run info carries no run_name"));
        },
    };
    let user_id = match get_string_field(v, "user_id") {
        Some(s) => s,
        None => {
            return Err(decode_error("run info carries no user_id"));
        },
    };
    let status = match get_string_field(v, "status") {
        Some(s) => s,
        None => {
            return Err(decode_error("run info carries no status"));
        },
    };
    let start_time = match get_u64_field(v, "start_time") {
        Some(n) => n,
        None => {
            return Err(decode_error("run info carries no start_time"));
        },
    };
    let artifact_uri = match get_string_field(v, "artifact_uri") {
        Some(s) => s,
        None => {
            return Err(decode_error("run info carries no artifact_uri"));
        },
    };
    let lifecycle_stage = match get_string_field(v, "lifecycle_stage") {
        Some(s) => s,
        None => {
            return Err(decode_error("run info carries no lifecycle_stage"));
        },
    };
    let run_id = match get_string_field(v, "run_id") {
        Some(s) => s,
        None => {
            return Err(decode_error("run info carries no run_id"));
        },
    };
    Ok(
        RunInfo {
            run_uuid,
            experiment_id,
            run_name,
            user_id,
            status,
            start_time,
            artifact_uri,
            lifecycle_stage,
            run_id,
        },
    )
}

/// The appendable data parsed out of a JSON `data` object: the tag list is
/// required, the parameter list defaults to empty when absent.
fn parse_run_data(v: &serde_json::Value) -> (r: Result<RunData, ClientError>)
    ensures
        r matches Err(e) ==> e is Decode,
{
    let tags_value = match json_get(v, "tags") {
        Some(t) => t,
        None => {
            return Err(decode_error("run data carries no tags"));
        },
    };
    let tag_entries = match json_as_array(tags_value) {
        Some(t) => t,
        None => {
            return Err(decode_error("tags is not an array"));
        },
    };
    let mut tags: Vec<RunTag> = Vec::new();
    let len = tag_entries.len();
    let mut i: usize = 0;
    while i < len
        invariant
            0 <= i <= len,
            len == tag_entries@.len(),
        decreases len - i,
    {
        let entry = &tag_entries[i];
        let key = match get_string_field(entry, "key") {
            Some(s) => s,
            None => {
                return Err(decode_error("tag carries no key"));
            },
        };
        let value = match get_string_field(entry, "value") {
            Some(s) => s,
            None => {
                return Err(decode_error("tag carries no value"));
            },
        };
        tags.push(RunTag { key, value });
        i += 1;
    }

    let mut params: Vec<RunParameters> = Vec::new();
    if let Some(params_value) = json_get(v, "params") {
        let param_entries = match json_as_array(params_value) {
            Some(t) => t,
            None => {
                return Err(decode_error("params is not an array"));
            },
        };
        let plen = param_entries.len();
        let mut j: usize = 0;
        while j < plen
            invariant
                0 <= j <= plen,
                plen == param_entries@.len(),
            decreases plen - j,
        {
            let entry = &param_entries[j];
            let key = match get_string_field(entry, "key") {
                Some(s) => s,
                None => {
                    return Err(decode_error("parameter carries no key"));
                },
            };
            let value = match get_string_field(entry, "value") {
                Some(s) => s,
                None => {
                    return Err(decode_error("parameter carries no value"));
                },
            };
            params.push(RunParameters { key, value });
            j += 1;
        }
    }
    Ok(RunData { tags, params })
}

} // verus!
