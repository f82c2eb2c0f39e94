//! An experiment: a named grouping of runs, and the entry points that create
//! runs under it.
//!
//! Creating a run is guarded: the working tree's state decides whether the
//! creation request may be issued at all, and — in diff-capture mode — whether
//! an uncommitted-changes artifact must be captured afterwards.  The guard's
//! verdict is taken as input here (the application layer runs the inspection
//! commands); the decision itself is pinned down exactly.

use vstd::prelude::*;
use crate::client::decode_checked_response;
use crate::errors::{
    ClientError, DirtyRepoError, RepoContainsSubfolderReposError, RepoContainsSubmodulesError,
    RunCreationError,
};
use crate::client::envelope_of;
use crate::guard::RepositoryState;
use crate::json::{get_string_field, get_u64_field, json_get, json_ok};
use crate::request::{
    append_json_string, append_str, endpoint_url, json_quoted, HttpMethod, HttpRequest,
    RequestBody,
};
use crate::run::RunTag;
use crate::text::dec_digits;

verus! {

use vstd::string::StringSliceAdditionalSpecFns;
use vstd::string::StringExecFns;
use vstd::utf8::encode_utf8;

/// A named grouping of runs on the tracking service.
pub struct Experiment {
    pub api_root: String,
    pub experiment_id: String,
    pub name: String,
    pub artifact_location: String,
    pub lifecycle_stage: String,
    pub last_update_time: u64,
    pub creation_time: u64,
}

/// Body of the request that creates an experiment (created with no tags).
pub open spec fn create_experiment_body(name: Seq<char>) -> Seq<u8> {
    "{\"name\":".spec_bytes() + json_quoted(encode_utf8(name)) + ",\"tags\":[]}".spec_bytes()
}

/// Body of the request that fetches an experiment by identifier.
pub open spec fn get_experiment_body(experiment_id: Seq<char>) -> Seq<u8> {
    "{\"experiment_id\":".spec_bytes() + json_quoted(encode_utf8(experiment_id))
        + "}".spec_bytes()
}

/// Body of the request that fetches an experiment by name.
pub open spec fn get_experiment_by_name_body(experiment_name: Seq<char>) -> Seq<u8> {
    "{\"experiment_name\":".spec_bytes() + json_quoted(encode_utf8(experiment_name))
        + "}".spec_bytes()
}

/// One tag as a JSON object.
pub open spec fn run_tag_json(key: Seq<char>, value: Seq<char>) -> Seq<u8> {
    "{\"key\":".spec_bytes() + json_quoted(encode_utf8(key)) + ",\"value\":".spec_bytes()
        + json_quoted(encode_utf8(value)) + "}".spec_bytes()
}

/// The caller's tags, comma-separated.
pub open spec fn run_tags_json(tags: Seq<RunTag>) -> Seq<u8>
    decreases tags.len(),
{
    if tags.len() == 0 {
        Seq::<u8>::empty()
    } else if tags.len() == 1 {
        run_tag_json(tags[0].key@, tags[0].value@)
    } else {
        run_tags_json(tags.drop_last()) + ",".spec_bytes() + run_tag_json(
            tags.last().key@,
            tags.last().value@,
        )
    }
}

/// The full tag array of a creation request: the caller's tags followed by the
/// source-commit tag that records provenance.
pub open spec fn run_tags_json_with_commit(tags: Seq<RunTag>, commit: Seq<char>) -> Seq<u8> {
    if tags.len() == 0 {
        run_tag_json("mlflow.source.git.commit"@, commit)
    } else {
        run_tags_json(tags) + ",".spec_bytes() + run_tag_json("mlflow.source.git.commit"@, commit)
    }
}

/// The spec-level view of an optional run name.
pub open spec fn opt_name_view(run_name: Option<&str>) -> Option<Seq<char>> {
    match run_name {
        Some(s) => Some(s@),
        None => None,
    }
}

/// The run-name field: a JSON string, or `null` when the caller named none.
pub open spec fn run_name_json(run_name: Option<Seq<char>>) -> Seq<u8> {
    match run_name {
        Some(n) => json_quoted(encode_utf8(n)),
        None => "null".spec_bytes(),
    }
}

/// Body of the request that creates a run.
pub open spec fn create_run_body(
    experiment_id: Seq<char>,
    run_name: Option<Seq<char>>,
    start_time: nat,
    tags: Seq<RunTag>,
    commit: Seq<char>,
) -> Seq<u8> {
    "{\"experiment_id\":".spec_bytes() + json_quoted(encode_utf8(experiment_id))
        + ",\"run_name\":".spec_bytes() + run_name_json(run_name) + ",\"start_time\":".spec_bytes()
        + dec_digits(start_time) + ",\"tags\":[".spec_bytes() + run_tags_json_with_commit(
        tags,
        commit,
    ) + "]}".spec_bytes()
}

/// Appends the caller's tags, comma-separated, to `out`.
fn append_tags(out: &mut Vec<u8>, tags: &Vec<RunTag>)
    ensures
        final(out)@ == old(out)@ + run_tags_json(tags@),
{
    let len = tags.len();
    let mut i: usize = 0;
    while i < len
        invariant
            0 <= i <= len,
            len == tags@.len(),
            out@ == old(out)@ + run_tags_json(tags@.subrange(0, i as int)),
        decreases len - i,
    {
        if i > 0 {
            append_str(out, ",");
        }
        let tag = &tags[i];
        append_str(out, "{\"key\":");
        append_json_string(out, tag.key.as_str());
        append_str(out, ",\"value\":");
        append_json_string(out, tag.value.as_str());
        append_str(out, "}");
        proof {
            let sub = tags@.subrange(0, i + 1 as int);
            assert(sub.drop_last() =~= tags@.subrange(0, i as int));
            assert(sub.last() == tags@[i as int]);
            assert(out@ =~= old(out)@ + run_tags_json(sub));
        }
        i += 1;
    }
    assert(tags@.subrange(0, len as int) =~= tags@);
}

impl Experiment {
    /// The request that creates an experiment with this name; the identifier
    /// in the response body comes out of `experiment_id_from_response`, and
    /// the experiment itself is then fetched with `search_with_id`.  The
    /// service rejects a name that already exists, also in a deleted state.
    pub fn new(api_root: &str, name: &str) -> (r: HttpRequest)
        ensures
            r.method == HttpMethod::Post,
            r.url@ == api_root@ + "/api/2.0/mlflow/experiments/create"@,
            r.query@.len() == 0,
            r.is_json(),
            r.body_bytes() == create_experiment_body(name@),
    {
        let mut body: Vec<u8> = Vec::new();
        append_str(&mut body, "{\"name\":");
        append_json_string(&mut body, name);
        append_str(&mut body, ",\"tags\":[]}");
        assert(body@ =~= create_experiment_body(name@));
        HttpRequest {
            method: HttpMethod::Post,
            url: endpoint_url(api_root, "/api/2.0/mlflow/experiments/create"),
            query: Vec::new(),
            body: RequestBody::Json(body),
        }
    }

    /// The experiment identifier in a checked `experiments/create` response
    /// body.
    pub fn experiment_id_from_response(response: &str) -> (r: Result<String, ClientError>)
        ensures
            r matches Err(e) ==> (e is Service || e is Decode),
            envelope_of(response@) is Some ==> r is Err,
            !json_ok(response@) ==> r is Err,
    {
        let parsed = decode_checked_response(response)?;
        match get_string_field(&parsed, "experiment_id") {
            Some(s) => Ok(s),
            None => Err(
                ClientError::Decode(String::from_str("response carries no experiment_id")),
            ),
        }
    }

    /// The request that fetches the experiment with this identifier; the body
    /// the transport returns goes through `from_response`.
    pub fn search_with_id(api_root: &str, id: &str) -> (r: HttpRequest)
        ensures
            r.method == HttpMethod::Get,
            r.url@ == api_root@ + "/api/2.0/mlflow/experiments/get"@,
            r.query@.len() == 0,
            r.is_json(),
            r.body_bytes() == get_experiment_body(id@),
    {
        let mut body: Vec<u8> = Vec::new();
        append_str(&mut body, "{\"experiment_id\":");
        append_json_string(&mut body, id);
        append_str(&mut body, "}");
        assert(body@ =~= get_experiment_body(id@));
        HttpRequest {
            method: HttpMethod::Get,
            url: endpoint_url(api_root, "/api/2.0/mlflow/experiments/get"),
            query: Vec::new(),
            body: RequestBody::Json(body),
        }
    }

    /// The request that fetches the experiment with this name; the body the
    /// transport returns goes through `from_response`.
    pub fn search_with_name(api_root: &str, name: &str) -> (r: HttpRequest)
        ensures
            r.method == HttpMethod::Get,
            r.url@ == api_root@ + "/api/2.0/mlflow/experiments/get-by-name"@,
            r.query@.len() == 0,
            r.is_json(),
            r.body_bytes() == get_experiment_by_name_body(name@),
    {
        let mut body: Vec<u8> = Vec::new();
        append_str(&mut body, "{\"experiment_name\":");
        append_json_string(&mut body, name);
        append_str(&mut body, "}");
        assert(body@ =~= get_experiment_by_name_body(name@));
        HttpRequest {
            method: HttpMethod::Get,
            url: endpoint_url(api_root, "/api/2.0/mlflow/experiments/get-by-name"),
            query: Vec::new(),
            body: RequestBody::Json(body),
        }
    }

    /// The experiment parsed out of a checked `experiments/get` response body,
    /// with its API root set to the root it was fetched from.
    pub fn from_response(api_root: &str, response: &str) -> (r: Result<Experiment, ClientError>)
        ensures
            r matches Ok(e) ==> e.api_root@ == api_root@,
            r matches Err(e) ==> (e is Service || e is Decode),
            envelope_of(response@) is Some ==> r is Err,
            !json_ok(response@) ==> r is Err,
    {
        let parsed = decode_checked_response(response)?;
        let exp = match json_get(&parsed, "experiment") {
            Some(v) => v,
            None => {
                return Err(
                    ClientError::Decode(String::from_str("response carries no experiment object")),
                );
            },
        };
        let experiment_id = match get_string_field(exp, "experiment_id") {
            Some(s) => s,
            None => {
                return Err(
                    ClientError::Decode(String::from_str("experiment carries no experiment_id")),
                );
            },
        };
        let name = match get_string_field(exp, "name") {
            Some(s) => s,
            None => {
                return Err(ClientError::Decode(String::from_str("experiment carries no name")));
            },
        };
        let artifact_location = match get_string_field(exp, "artifact_location") {
            Some(s) => s,
            None => {
                return Err(
                    ClientError::Decode(
                        String::from_str("experiment carries no artifact_location"),
                    ),
                );
            },
        };
        let lifecycle_stage = match get_string_field(exp, "lifecycle_stage") {
            Some(s) => s,
            None => {
                return Err(
                    ClientError::Decode(String::from_str("experiment carries no lifecycle_stage")),
                );
            },
        };
        let last_update_time = match get_u64_field(exp, "last_update_time") {
            Some(n) => n,
            None => {
                return Err(
                    ClientError::Decode(
                        String::from_str("experiment carries no last_update_time"),
                    ),
                );
            },
        };
        let creation_time = match get_u64_field(exp, "creation_time") {
            Some(n) => n,
            None => {
                return Err(
                    ClientError::Decode(String::from_str("experiment carries no creation_time")),
                );
            },
        };
        Ok(
            Experiment {
                api_root: String::from_str(api_root),
                experiment_id,
                name,
                artifact_location,
                lifecycle_stage,
                last_update_time,
                creation_time,
            },
        )
    }

    /// The request that creates a run under this experiment, with no guard:
    /// the caller's tags are extended with the source-commit tag, and the
    /// given start timestamp (epoch milliseconds) is recorded.
    #[verifier::rlimit(50)]
    pub fn create_run_unchecked(
        &self,
        run_name: Option<&str>,
        tags: &Vec<RunTag>,
        commit_hash: &str,
        start_time_ms: u64,
    ) -> (r: HttpRequest)
        ensures
            r.method == HttpMethod::Post,
            r.url@ == self.api_root@ + "/api/2.0/mlflow/runs/create"@,
            r.query@.len() == 0,
            r.is_json(),
            r.body_bytes() == create_run_body(
                self.experiment_id@,
                opt_name_view(run_name),
                start_time_ms as nat,
                tags@,
                commit_hash@,
            ),
    {
        let mut body: Vec<u8> = Vec::new();
        append_str(&mut body, "{\"experiment_id\":");
        append_json_string(&mut body, self.experiment_id.as_str());
        append_str(&mut body, ",\"run_name\":");
        match run_name {
            Some(n) => append_json_string(&mut body, n),
            None => append_str(&mut body, "null"),
        }
        append_str(&mut body, ",\"start_time\":");
        crate::text::push_dec_u64(&mut body, start_time_ms);
        append_str(&mut body, ",\"tags\":[");
        append_tags(&mut body, tags);
        if tags.len() > 0 {
            append_str(&mut body, ",");
        }
        append_str(&mut body, "{\"key\":");
        append_json_string(&mut body, "mlflow.source.git.commit");
        append_str(&mut body, ",\"value\":");
        append_json_string(&mut body, commit_hash);
        append_str(&mut body, "}");
        append_str(&mut body, "]}");
        assert(body@ =~= create_run_body(
            self.experiment_id@,
            opt_name_view(run_name),
            start_time_ms as nat,
            tags@,
            commit_hash@,
        ));
        HttpRequest {
            method: HttpMethod::Post,
            url: endpoint_url(self.api_root.as_str(), "/api/2.0/mlflow/runs/create"),
            query: Vec::new(),
            body: RequestBody::Json(body),
        }
    }

    /// Strict-mode run creation: the creation request exists only for a clean
    /// tree.  Submodules and nested repositories are rejected unconditionally,
    /// an unclean tree is rejected with `DirtyRepoError`, and in each rejected
    /// case no creation request comes into being.
    pub fn create_run(
        &self,
        run_name: Option<&str>,
        tags: &Vec<RunTag>,
        repo: RepositoryState,
        commit_hash: &str,
        start_time_ms: u64,
    ) -> (r: Result<HttpRequest, RunCreationError>)
        ensures
            r is Ok <==> repo is Clean,
            repo is ContainsSubmodules ==> r matches Err(RunCreationError::Submodules(_)),
            repo is ContainsNestedRepositories ==> r matches Err(
                RunCreationError::SubfolderRepos(_),
            ),
            repo is Dirty ==> r matches Err(RunCreationError::Dirty(_)),
            repo is Clean ==> (r matches Ok(req) && req.method == HttpMethod::Post && req.url@
                == self.api_root@ + "/api/2.0/mlflow/runs/create"@ && req.is_json()
                && req.body_bytes() == create_run_body(
                self.experiment_id@,
                opt_name_view(run_name),
                start_time_ms as nat,
                tags@,
                commit_hash@,
            )),
    {
        match repo {
            RepositoryState::ContainsSubmodules => Err(
                RunCreationError::Submodules(RepoContainsSubmodulesError {  }),
            ),
            RepositoryState::ContainsNestedRepositories => Err(
                RunCreationError::SubfolderRepos(RepoContainsSubfolderReposError {  }),
            ),
            RepositoryState::Dirty => Err(RunCreationError::Dirty(DirtyRepoError {  })),
            RepositoryState::Clean => Ok(
                self.create_run_unchecked(run_name, tags, commit_hash, start_time_ms),
            ),
        }
    }

    /// Diff-capture-mode run creation: an unclean tree is allowed, but then the
    /// uncommitted delta must be captured and uploaded as an artifact after the
    /// run exists.  Submodules and nested repositories are still rejected
    /// unconditionally.  The tree is classified once, up front: whether to
    /// capture is decided from the same verdict that admitted the creation,
    /// not from a second inspection after the run exists.
    pub fn create_run_with_git_diff(
        &self,
        run_name: Option<&str>,
        tags: &Vec<RunTag>,
        repo: RepositoryState,
        commit_hash: &str,
        start_time_ms: u64,
    ) -> (r: Result<CreateRunPlan, RunCreationError>)
        ensures
            r is Ok <==> (repo is Clean || repo is Dirty),
            repo is ContainsSubmodules ==> r matches Err(RunCreationError::Submodules(_)),
            repo is ContainsNestedRepositories ==> r matches Err(
                RunCreationError::SubfolderRepos(_),
            ),
            r matches Ok(plan) ==> plan.capture_diff == (repo is Dirty)
                && plan.request.method == HttpMethod::Post && plan.request.url@ == self.api_root@
                + "/api/2.0/mlflow/runs/create"@ && plan.request.is_json()
                && plan.request.body_bytes() == create_run_body(
                self.experiment_id@,
                opt_name_view(run_name),
                start_time_ms as nat,
                tags@,
                commit_hash@,
            ),
    {
        match repo {
            RepositoryState::ContainsSubmodules => Err(
                RunCreationError::Submodules(RepoContainsSubmodulesError {  }),
            ),
            RepositoryState::ContainsNestedRepositories => Err(
                RunCreationError::SubfolderRepos(RepoContainsSubfolderReposError {  }),
            ),
            RepositoryState::Dirty => Ok(
                CreateRunPlan {
                    request: self.create_run_unchecked(run_name, tags, commit_hash, start_time_ms),
                    capture_diff: true,
                },
            ),
            RepositoryState::Clean => Ok(
                CreateRunPlan {
                    request: self.create_run_unchecked(run_name, tags, commit_hash, start_time_ms),
                    capture_diff: false,
                },
            ),
        }
    }

    pub fn get_experiment_id(&self) -> (r: &str)
        ensures
            r@ == self.experiment_id@,
    {
        self.experiment_id.as_str()
    }

    pub fn get_name(&self) -> (r: &str)
        ensures
            r@ == self.name@,
    {
        self.name.as_str()
    }

    pub fn get_artifact_location(&self) -> (r: &str)
        ensures
            r@ == self.artifact_location@,
    {
        self.artifact_location.as_str()
    }

    pub fn get_lifecycle_stage(&self) -> (r: &str)
        ensures
            r@ == self.lifecycle_stage@,
    {
        self.lifecycle_stage.as_str()
    }

    pub fn get_last_update_time(&self) -> (r: u64)
        ensures
            r == self.last_update_time,
    {
        self.last_update_time
    }

    pub fn get_creating_time(&self) -> (r: u64)
        ensures
            r == self.creation_time,
    {
        self.creation_time
    }
}

/// What diff-capture-mode run creation decided: the creation request to issue,
/// and whether a diff artifact must be captured and uploaded once the run
/// exists.
pub struct CreateRunPlan {
    pub request: HttpRequest,
    pub capture_diff: bool,
}

} // verus!
