//! The mirror resolver: building the duplicate-check request, classifying
//! the response status, decoding the response body, and extracting the
//! mirror URL from the HTML fragment in its message.
//!
//! The network itself stays outside the library; every function here maps
//! plain values to plain values. Strings travel as bytes so that raw
//! response fragments can be carried in error messages verbatim.

use vstd::prelude::*;
use vstd::string::{StrSliceExecFns, StringSliceAdditionalSpecFns};

use crate::errors::{ErrorCode, GetGiteeError};
use crate::scan::{
    concat_bytes, find_byte_from, find_from, first_match_at, is_match_at,
    lemma_first_match_unique, sub_bytes,
};

verus! {

// ---------------------------------------------------------------------
// Fixed texts of the protocol.
// ---------------------------------------------------------------------

/// The duplicate-check endpoint; the percent-encoded remote URL is appended
/// as the query value.
pub open spec fn lookup_endpoint() -> Seq<u8> {
    "https://gitee.com/projects/check_project_duplicate?import_url=".spec_bytes()
}

/// The cookie key that carries the session token.
pub open spec fn cookie_key() -> Seq<u8> {
    "gitee-session-n=".spec_bytes()
}

/// The fixed user-agent header value of every lookup request.
pub open spec fn user_agent_text() -> Seq<u8> {
    "curl/7.79.1".spec_bytes()
}

/// The message reported when the session token is absent.
pub open spec fn missing_token_text() -> Seq<u8> {
    "cant find GITEE_SESSION in env".spec_bytes()
}

/// The message prefix of a failed repository lookup; the remote URL follows.
pub open spec fn not_found_prefix() -> Seq<u8> {
    "can't found repo in gitee, origin: ".spec_bytes()
}

/// The message prefix of an undecodable response; the raw data follows.
pub open spec fn parse_error_prefix() -> Seq<u8> {
    "can't parse gitee response, data: ".spec_bytes()
}

/// The message prefix of an authentication refusal; a diagnostic follows.
pub open spec fn denied_prefix() -> Seq<u8> {
    "Access Denied! Gitee Response: ".spec_bytes()
}

/// The message prefix of an unexpected response; a diagnostic follows.
pub open spec fn unknown_prefix() -> Seq<u8> {
    "Access UnknowError! Gitee Response: ".spec_bytes()
}

/// The opening of an HTML anchor's target, `href="`.
pub open spec fn href_marker() -> Seq<u8> {
    seq!['h' as u8, 'r' as u8, 'e' as u8, 'f' as u8, '=' as u8, '"' as u8]
}

/// The quote that closes an anchor's target.
pub open spec fn quote_byte() -> u8 {
    '"' as u8
}

/// The suffix appended to the extracted anchor target, `.git`.
pub open spec fn git_suffix() -> Seq<u8> {
    seq!['.' as u8, 'g' as u8, 'i' as u8, 't' as u8]
}

fn lookup_endpoint_bytes() -> (v: Vec<u8>)
    ensures
        v@ == lookup_endpoint(),
{
    "https://gitee.com/projects/check_project_duplicate?import_url=".as_bytes_vec()
}

fn cookie_key_bytes() -> (v: Vec<u8>)
    ensures
        v@ == cookie_key(),
{
    "gitee-session-n=".as_bytes_vec()
}

fn user_agent_bytes() -> (v: Vec<u8>)
    ensures
        v@ == user_agent_text(),
{
    "curl/7.79.1".as_bytes_vec()
}

fn href_marker_bytes() -> (v: Vec<u8>)
    ensures
        v@ == href_marker(),
{
    let mut v: Vec<u8> = Vec::new();
    v.push('h' as u8);
    v.push('r' as u8);
    v.push('e' as u8);
    v.push('f' as u8);
    v.push('=' as u8);
    v.push('"' as u8);
    proof {
        assert(v@ =~= href_marker());
    }
    v
}

fn git_suffix_bytes() -> (v: Vec<u8>)
    ensures
        v@ == git_suffix(),
{
    let mut v: Vec<u8> = Vec::new();
    v.push('.' as u8);
    v.push('g' as u8);
    v.push('i' as u8);
    v.push('t' as u8);
    proof {
        assert(v@ =~= git_suffix());
    }
    v
}

// ---------------------------------------------------------------------
// Calls into outside crates.
// ---------------------------------------------------------------------

/// The percent-encoding of a byte sequence.
pub uninterp spec fn url_encoded(data: Seq<u8>) -> Seq<u8>;

/// Relies on urlencoding::encode_binary: percent-encodes every byte except
/// ASCII alphanumerics and `-`, `_`, `.`, `~`. The result depends on the
/// bytes alone, so it is only named here.
#[verifier::external_body]
fn url_encode(data: &Vec<u8>) -> (r: Vec<u8>)
    ensures
        r@ == url_encoded(data@),
{
    urlencoding::encode_binary(data.as_slice()).into_owned().into_bytes()
}

/// Whether a byte sequence is UTF-8 and parses as a URI.
pub uninterp spec fn uri_well_formed(remote: Seq<u8>) -> bool;

/// Relies on hyper::Uri's FromStr impl: whether the remote parses as a URI.
/// The verdict depends on the bytes alone, so it is only named here.
#[verifier::external_body]
fn check_remote_uri(remote: &Vec<u8>) -> (r: bool)
    ensures
        r == uri_well_formed(remote@),
{
    match core::str::from_utf8(remote.as_slice()) {
        Ok(s) => s.parse::<hyper::Uri>().is_ok(),
        Err(_) => false,
    }
}

/// The decoded duplicate-check body: the duplicate flag and the message
/// text (empty when the field is absent), or nothing when the bytes do not
/// decode to that shape.
pub uninterp spec fn dup_parse(body: Seq<u8>) -> Option<(bool, Seq<u8>)>;

/// Relies on serde_json::from_slice and the serde_json::Value it yields:
/// decodes the duplicate-check body, a JSON object with a boolean
/// `is_duplicate` and an optional string `message` that defaults to empty.
/// The result depends on the bytes alone, so it is only named here.
#[verifier::external_body]
fn parse_dup_body(body: &Vec<u8>) -> (r: Option<(bool, Vec<u8>)>)
    ensures
        match r {
            Some(p) => dup_parse(body@) == Some((p.0, p.1@)),
            None => dup_parse(body@) is None,
        },
{
    let v: serde_json::Value = match serde_json::from_slice(body.as_slice()) {
        Ok(v) => v,
        Err(_) => return None,
    };
    let d = match v.get("is_duplicate") {
        Some(serde_json::Value::Bool(b)) => *b,
        _ => return None,
    };
    let m = match v.get("message") {
        Some(serde_json::Value::String(s)) => s.clone(),
        None => String::new(),
        Some(_) => return None,
    };
    Some((d, m.into_bytes()))
}

// ---------------------------------------------------------------------
// The anchor in the response message.
// ---------------------------------------------------------------------

/// The anchor target of `msg` spans `[i + 6, k)`: the first `href="` starts
/// at `i`, and `k` is the first quote after it.
pub open spec fn url_span(msg: Seq<u8>, i: int, k: int) -> bool {
    &&& first_match_at(msg, href_marker(), i)
    &&& i + 6 <= k < msg.len()
    &&& msg[k] == quote_byte()
    &&& forall|j: int| i + 6 <= j < k ==> msg[j] != quote_byte()
}

/// The message holds an anchor: an `href="` followed by a closing quote.
pub open spec fn has_anchor(msg: Seq<u8>) -> bool {
    exists|i: int, k: int| url_span(msg, i, k)
}

/// The anchor target of the message (meaningful only when `has_anchor`).
pub open spec fn anchor_url(msg: Seq<u8>) -> Seq<u8> {
    let (i, k) = choose|i: int, k: int| url_span(msg, i, k);
    msg.subrange(i + 6, k)
}

/// The mirror URL derived from the message: the anchor target with the
/// repository suffix appended.
pub open spec fn mirror_url(msg: Seq<u8>) -> Seq<u8> {
    anchor_url(msg) + git_suffix()
}

/// An anchor's span is unique: there is one first marker, and one first
/// quote after it.
pub proof fn lemma_url_span_unique(msg: Seq<u8>, i1: int, k1: int, i2: int, k2: int)
    requires
        url_span(msg, i1, k1),
        url_span(msg, i2, k2),
    ensures
        i1 == i2,
        k1 == k2,
{
    lemma_first_match_unique(msg, href_marker(), i1, i2);
    if k1 < k2 {
        assert(msg[k1] != quote_byte());
    }
    if k2 < k1 {
        assert(msg[k2] != quote_byte());
    }
}

/// Law: whatever the message, a mirror URL derived from it ends in the
/// repository suffix.
pub proof fn lemma_mirror_url_has_suffix(msg: Seq<u8>)
    ensures
        mirror_url(msg).len() >= 4,
        mirror_url(msg).subrange(
            mirror_url(msg).len() - 4,
            mirror_url(msg).len() as int,
        ) == git_suffix(),
{
    assert(mirror_url(msg).subrange(
        mirror_url(msg).len() - 4,
        mirror_url(msg).len() as int,
    ) =~= git_suffix());
}

/// Law: a message whose first `href="` is followed by a quote-free value
/// and then a closing quote resolves to exactly that value with the
/// repository suffix appended.
pub proof fn lemma_anchor_value_exact(msg: Seq<u8>, i: int, url: Seq<u8>)
    requires
        first_match_at(msg, href_marker(), i),
        i + 6 + url.len() < msg.len(),
        msg.subrange(i + 6, i + 6 + url.len()) == url,
        msg[i + 6 + url.len()] == quote_byte(),
        forall|j: int| 0 <= j < url.len() ==> url[j] != quote_byte(),
    ensures
        has_anchor(msg),
        mirror_url(msg) == url + git_suffix(),
{
    let k = i + 6 + url.len();
    assert forall|j: int| i + 6 <= j < k implies msg[j] != quote_byte() by {
        assert(url[j - (i + 6)] == msg.subrange(i + 6, i + 6 + url.len() as int)[j - (i + 6)]);
    }
    assert(url_span(msg, i, k));
    let (ci, ck) = choose|ci: int, ck: int| url_span(msg, ci, ck);
    lemma_url_span_unique(msg, i, k, ci, ck);
    assert(anchor_url(msg) == msg.subrange(i + 6, k));
    assert(msg.subrange(i + 6, k) == url);
}

/// Law: a message whose first `href="` is never followed by a closing
/// quote holds no anchor, so resolution reports a parse failure.
pub proof fn lemma_unterminated_anchor(msg: Seq<u8>, i: int)
    requires
        first_match_at(msg, href_marker(), i),
        forall|k: int| i + 6 <= k < msg.len() ==> msg[k] != quote_byte(),
    ensures
        !has_anchor(msg),
{
    assert forall|ii: int, kk: int| !url_span(msg, ii, kk) by {
        if url_span(msg, ii, kk) {
            lemma_first_match_unique(msg, href_marker(), i, ii);
            assert(msg[kk] != quote_byte());
        }
    }
}

fn parse_error(message: &Vec<u8>) -> (e: GetGiteeError)
    ensures
        e.code == ErrorCode::ParseResponseError,
        e.msg@ == parse_error_prefix() + message@,
{
    let prefix = "can't parse gitee response, data: ".as_bytes_vec();
    GetGiteeError { code: ErrorCode::ParseResponseError, msg: concat_bytes(&prefix, message) }
}

/// Extracts the mirror URL from the message of a duplicate response: the
/// text between the first `href="` and the next quote, with the repository
/// suffix appended; a parse failure when there is no such anchor.
pub fn extract_mirror_url(message: &Vec<u8>) -> (r: Result<Vec<u8>, GetGiteeError>)
    ensures
        match r {
            Ok(u) => has_anchor(message@) && u@ == mirror_url(message@),
            Err(e) => {
                &&& !has_anchor(message@)
                &&& e.code == ErrorCode::ParseResponseError
                &&& e.msg@ == parse_error_prefix() + message@
            },
        },
{
    let marker = href_marker_bytes();
    match find_from(message, &marker, 0) {
        None => {
            proof {
                assert forall|ii: int, kk: int| !url_span(message@, ii, kk) by {
                    if url_span(message@, ii, kk) {
                        assert(is_match_at(message@, href_marker(), ii));
                    }
                }
            }
            Err(parse_error(message))
        },
        Some(i) => {
            let n: usize = message.len();
            assert(i + 6 <= n);
            match find_byte_from(message, '"' as u8, i + 6) {
                None => {
                    proof {
                        assert forall|ii: int, kk: int| !url_span(message@, ii, kk) by {
                            if url_span(message@, ii, kk) {
                                lemma_first_match_unique(
                                    message@,
                                    href_marker(),
                                    i as int,
                                    ii,
                                );
                                assert(message@[kk] != quote_byte());
                            }
                        }
                    }
                    Err(parse_error(message))
                },
                Some(k) => {
                    let url = sub_bytes(message, i + 6, k);
                    let suffix = git_suffix_bytes();
                    let out = concat_bytes(&url, &suffix);
                    proof {
                        assert(url_span(message@, i as int, k as int));
                        let (ci, ck) = choose|ci: int, ck: int| url_span(message@, ci, ck);
                        lemma_url_span_unique(message@, i as int, k as int, ci, ck);
                    }
                    Ok(out)
                },
            }
        },
    }
}

// ---------------------------------------------------------------------
// Response handling.
// ---------------------------------------------------------------------

/// Classifies the HTTP status of the lookup: 401 is an authentication
/// refusal, any other status but 200 an unknown failure; the caller's
/// diagnostic text is attached to the report.
pub fn classify_status(status: u16, diagnostic: &Vec<u8>) -> (r: Result<(), GetGiteeError>)
    ensures
        match r {
            Ok(()) => status == 200,
            Err(e) => if status == 401 {
                e.code == ErrorCode::InvalidLogin && e.msg@ == denied_prefix() + diagnostic@
            } else {
                status != 200 && e.code == ErrorCode::AccessGiteeUnknowError && e.msg@
                    == unknown_prefix() + diagnostic@
            },
        },
{
    if status == 401 {
        let prefix = "Access Denied! Gitee Response: ".as_bytes_vec();
        Err(GetGiteeError {
            code: ErrorCode::InvalidLogin,
            msg: concat_bytes(&prefix, diagnostic),
        })
    } else if status != 200 {
        let prefix = "Access UnknowError! Gitee Response: ".as_bytes_vec();
        Err(GetGiteeError {
            code: ErrorCode::AccessGiteeUnknowError,
            msg: concat_bytes(&prefix, diagnostic),
        })
    } else {
        Ok(())
    }
}

/// Resolves a decoded duplicate-check response. A non-duplicate answer is a
/// failed lookup whatever the message holds; a duplicate answer yields the
/// mirror URL of the message's anchor, or a parse failure when there is
/// none.
pub fn resolve_response(is_duplicate: bool, message: &Vec<u8>, remote: &Vec<u8>) -> (r: Result<
    Vec<u8>,
    GetGiteeError,
>)
    ensures
        match r {
            Ok(u) => is_duplicate && has_anchor(message@) && u@ == mirror_url(message@),
            Err(e) => if is_duplicate {
                &&& !has_anchor(message@)
                &&& e.code == ErrorCode::ParseResponseError
                &&& e.msg@ == parse_error_prefix() + message@
            } else {
                &&& e.code == ErrorCode::CanNotFoundRepo
                &&& e.msg@ == not_found_prefix() + remote@
            },
        },
{
    if !is_duplicate {
        let prefix = "can't found repo in gitee, origin: ".as_bytes_vec();
        return Err(GetGiteeError {
            code: ErrorCode::CanNotFoundRepo,
            msg: concat_bytes(&prefix, remote),
        });
    }
    extract_mirror_url(message)
}

/// Resolves a raw response body: decodes it, then resolves the decoded
/// response; an undecodable body is a parse failure with the raw bytes
/// attached.
pub fn resolve_body(body: &Vec<u8>, remote: &Vec<u8>) -> (r: Result<Vec<u8>, GetGiteeError>)
    ensures
        match dup_parse(body@) {
            Some(p) => match r {
                Ok(u) => p.0 && has_anchor(p.1) && u@ == mirror_url(p.1),
                Err(e) => if p.0 {
                    &&& !has_anchor(p.1)
                    &&& e.code == ErrorCode::ParseResponseError
                    &&& e.msg@ == parse_error_prefix() + p.1
                } else {
                    &&& e.code == ErrorCode::CanNotFoundRepo
                    &&& e.msg@ == not_found_prefix() + remote@
                },
            },
            None => r matches Err(e) && e.code == ErrorCode::ParseResponseError && e.msg@
                == parse_error_prefix() + body@,
        },
{
    match parse_dup_body(body) {
        None => Err(parse_error(body)),
        Some((is_duplicate, message)) => resolve_response(is_duplicate, &message, remote),
    }
}

// ---------------------------------------------------------------------
// Request preparation.
// ---------------------------------------------------------------------

/// A prepared lookup: the request URL and the two fixed headers' values.
pub struct LookupRequest {
    pub url: Vec<u8>,
    pub cookie: Vec<u8>,
    pub user_agent: Vec<u8>,
}

/// The outcome of preparing a lookup: a request ready to send, a remote
/// that is no URI (the operation aborts), or a missing session token.
pub enum LookupOutcome {
    Ready(LookupRequest),
    BadRemote,
    Refused(GetGiteeError),
}

/// Builds the session cookie from the token read from the environment, or
/// reports the token missing.
pub fn get_gitee_token(session: Option<Vec<u8>>) -> (r: Result<Vec<u8>, GetGiteeError>)
    ensures
        match r {
            Ok(c) => session matches Some(v) && c@ == cookie_key() + v@,
            Err(e) => {
                &&& session is None
                &&& e.code == ErrorCode::InvalidToken
                &&& e.msg@ == missing_token_text()
            },
        },
{
    match session {
        Some(v) => {
            let key = cookie_key_bytes();
            Ok(concat_bytes(&key, &v))
        },
        None => Err(GetGiteeError {
            code: ErrorCode::InvalidToken,
            msg: "cant find GITEE_SESSION in env".as_bytes_vec(),
        }),
    }
}

/// Prepares the duplicate-check request for a remote URL: refuses a remote
/// that does not parse as a URI, reports a missing session token, and
/// otherwise yields the endpoint URL with the percent-encoded remote
/// appended, the session cookie, and the fixed user agent.
pub fn prepare_lookup(remote: &Vec<u8>, session: Option<Vec<u8>>) -> (r: LookupOutcome)
    ensures
        match r {
            LookupOutcome::BadRemote => !uri_well_formed(remote@),
            LookupOutcome::Refused(e) => {
                &&& uri_well_formed(remote@)
                &&& session is None
                &&& e.code == ErrorCode::InvalidToken
                &&& e.msg@ == missing_token_text()
            },
            LookupOutcome::Ready(q) => {
                &&& uri_well_formed(remote@)
                &&& session matches Some(v) && q.cookie@ == cookie_key() + v@
                &&& q.url@ == lookup_endpoint() + url_encoded(remote@)
                &&& q.user_agent@ == user_agent_text()
            },
        },
{
    if !check_remote_uri(remote) {
        return LookupOutcome::BadRemote;
    }
    let encoded = url_encode(remote);
    let endpoint = lookup_endpoint_bytes();
    let url = concat_bytes(&endpoint, &encoded);
    match get_gitee_token(session) {
        Err(e) => LookupOutcome::Refused(e),
        Ok(cookie) => LookupOutcome::Ready(
            LookupRequest { url, cookie, user_agent: user_agent_bytes() },
        ),
    }
}

} // verus!
