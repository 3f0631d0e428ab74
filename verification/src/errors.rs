//! The error type shared by the resolver and the manifest rewriter.

use vstd::prelude::*;

verus! {

/// The kind of a failure, one variant per distinct condition the tool
/// reports.
#[derive(Clone, Copy, Debug, PartialEq, Eq, Structural)]
pub enum ErrorCode {
    /// The lookup endpoint answered with an authentication failure.
    InvalidLogin,
    /// The transport layer failed before a response arrived.
    RequestError,
    /// The lookup endpoint answered with an unexpected status, or its body
    /// could not be read.
    AccessGiteeUnknowError,
    /// The session token is missing from the environment.
    InvalidToken,
    /// The lookup endpoint knows no mirror of the requested repository.
    CanNotFoundRepo,
    /// The response body or its embedded message could not be decoded.
    ParseResponseError,
    /// The replacement manifest file could not be written.
    WriteSubModuleError,
}

/// A failure report: a kind together with a human-readable message, kept as
/// bytes so that raw response fragments can be attached verbatim.
#[derive(Debug)]
pub struct GetGiteeError {
    pub code: ErrorCode,
    pub msg: Vec<u8>,
}

impl GetGiteeError {
    /// Builds a report from a kind and a message.
    pub fn new(code: ErrorCode, msg: Vec<u8>) -> (e: GetGiteeError)
        ensures
            e.code == code,
            e.msg@ == msg@,
    {
        GetGiteeError { code, msg }
    }
}

} // verus!
