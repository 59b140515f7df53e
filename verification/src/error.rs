//! What can go wrong between starting the server and reading its answers.

use crate::opts::{CarbonOptsBuilderError, SiliconOptsBuilderError, ViperServerOptsBuilderError};
use crate::text::{quote, quoted};
use crate::verification::DecodeError;
use vstd::prelude::*;
use vstd::string::*;

verus! {

/// Why a text is no URL.
#[verifier::external_type_specification]
#[verifier::external_body]
pub struct ExParseError(url::ParseError);

/// An error of this crate.
#[derive(Debug)]
pub enum ViperServerError {
    /// The server never said where it listens. `stdout` and `stderr` hold
    /// what it had written until then.
    ConnectToServerFailed { stdout: String, stderr: String, source: Box<ViperServerError> },
    /// The options of the server could not be built.
    BuildServer(ViperServerOptsBuilderError),
    /// The options of Silicon could not be built.
    SiliconOpts(SiliconOptsBuilderError),
    /// The options of Carbon could not be built.
    CarbonOpts(CarbonOptsBuilderError),
    /// The operating system did not start the server; `source` is its reason.
    SpawnServer { source: String, viper_server_jar: String },
    /// The server ended, or closed its output, before it said where it
    /// listens. `stdout` and `stderr` hold what it had written until then.
    ServerDidNotReportPort { stdout: String, stderr: String },
    /// What the server gave as its address, or a path under it, is no URL.
    InvalidUrl { source: url::ParseError },
    /// Reading or writing failed; `source` is the reason.
    Io { source: String },
    /// Bytes that should be text are no UTF-8.
    InvalidUtf8 { source: std::string::FromUtf8Error },
    /// The server answered with `json`, which is not what was expected.
    ParseJson { json: String, source: DecodeError },
    /// A request did not get through; `source` is the reason.
    Network { source: String },
}

pub type Result<T> = core::result::Result<T, ViperServerError>;

impl ViperServerError {
    /// The error in words.
    pub open spec fn message(self) -> Seq<char> {
        match self {
            ViperServerError::ConnectToServerFailed { .. } => "failed to connect to server"@,
            ViperServerError::BuildServer(_) => "building server from options"@,
            ViperServerError::SiliconOpts(_) => "building silicon from options"@,
            ViperServerError::CarbonOpts(_) => "building carbon from options"@,
            ViperServerError::SpawnServer { viper_server_jar, .. } => {
                "failed to spawn server using `"@ + viper_server_jar@ + "`"@
            },
            ViperServerError::ServerDidNotReportPort { .. } => {
                "server did not announce it's port"@
            },
            ViperServerError::InvalidUrl { .. } => "failed to parse url"@,
            ViperServerError::Io { .. } => "io error"@,
            ViperServerError::InvalidUtf8 { .. } => "invalid utf-8"@,
            ViperServerError::ParseJson { json, .. } => "failed to parse json: "@ + quoted(json@),
            ViperServerError::Network { .. } => "network error"@,
        }
    }

    /// The error in words.
    pub fn to_string(&self) -> (r: String)
        ensures
            r@ == self.message(),
    {
        match self {
            ViperServerError::ConnectToServerFailed { .. } => {
                "failed to connect to server".to_string()
            },
            ViperServerError::BuildServer(_) => "building server from options".to_string(),
            ViperServerError::SiliconOpts(_) => "building silicon from options".to_string(),
            ViperServerError::CarbonOpts(_) => "building carbon from options".to_string(),
            ViperServerError::SpawnServer { viper_server_jar, .. } => {
                let mut out = "failed to spawn server using `".to_string();
                out.append(viper_server_jar.as_str());
                out.append("`");
                out
            },
            ViperServerError::ServerDidNotReportPort { .. } => {
                "server did not announce it's port".to_string()
            },
            ViperServerError::InvalidUrl { .. } => "failed to parse url".to_string(),
            ViperServerError::Io { .. } => "io error".to_string(),
            ViperServerError::InvalidUtf8 { .. } => "invalid utf-8".to_string(),
            ViperServerError::ParseJson { json, .. } => {
                let mut out = "failed to parse json: ".to_string();
                let shown = quote(json.as_str());
                out.append(shown.as_str());
                out
            },
            ViperServerError::Network { .. } => "network error".to_string(),
        }
    }
}

} // verus!
