//! Error taxonomy of the client.
//!
//! Transport failures, structured service errors and schema mismatches are
//! kept apart, because only transport failures are worth retrying; the
//! repository guard has its own fatal precondition errors.

use vstd::prelude::*;

verus! {

use vstd::string::StringExecFns;

/// A structured error envelope embedded by the tracking service in an HTTP
/// response whose transport status was successful.
#[derive(Debug)]
pub struct ErrorResponse {
    pub error_code: String,
    pub message: String,
}

impl ErrorResponse {
    pub fn new(error_code: String, message: String) -> (r: ErrorResponse)
        ensures
            r.error_code == error_code,
            r.message == message,
    {
        ErrorResponse { error_code, message }
    }

    /// A readable rendering: the error code line followed by the message line.
    pub fn describe(&self) -> (r: String)
        ensures
            r@ == "error code: "@ + self.error_code@ + "\nmessage: "@ + self.message@,
    {
        let mut out = String::from_str("error code: ");
        out.append(self.error_code.as_str());
        out.append("\nmessage: ");
        out.append(self.message.as_str());
        out
    }
}

/// Why a request against the tracking service failed.
#[derive(Debug)]
pub enum ClientError {
    /// The transport layer failed: connection error, timeout, or a
    /// non-success HTTP status.  Retryable.
    Transport(String),
    /// The service rejected the request with a structured error envelope,
    /// even though the transport reported success.  Not retryable.
    Service(ErrorResponse),
    /// The response body did not match the expected schema.  Fatal.
    Decode(String),
}

/// The working tree has uncommitted tracked changes or untracked files.
#[derive(Debug)]
pub struct DirtyRepoError {}

impl DirtyRepoError {
    pub fn message(&self) -> (r: &'static str)
        ensures
            r@ == "The repository contains uncommitted changes."@,
    {
        "The repository contains uncommitted changes."
    }
}

/// The repository has registered submodules, which run provenance cannot map
/// to a single repository.
#[derive(Debug)]
pub struct RepoContainsSubmodulesError {}

impl RepoContainsSubmodulesError {
    pub fn message(&self) -> (r: &'static str)
        ensures
            r@ == "The repository contains one or more submodules which is currently not supported."@,
    {
        "The repository contains one or more submodules which is currently not supported."
    }
}

/// A nested repository root lies beneath the repository, which run provenance
/// cannot map to a single repository.
#[derive(Debug)]
pub struct RepoContainsSubfolderReposError {}

impl RepoContainsSubfolderReposError {
    pub fn message(&self) -> (r: &'static str)
        ensures
            r@
                == "The repository contains one or more subfolder which themselves container git repos which is currently not supported."@,
    {
        "The repository contains one or more subfolder which themselves container git repos which is currently not supported."
    }
}

/// Why creating a run was refused before any request went out.
#[derive(Debug)]
pub enum RunCreationError {
    Dirty(DirtyRepoError),
    Submodules(RepoContainsSubmodulesError),
    SubfolderRepos(RepoContainsSubfolderReposError),
}

} // verus!
