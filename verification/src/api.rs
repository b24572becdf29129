//! The HTTP surface: request payloads, reply bodies, and the handlers for
//! the status and clipboard endpoints. Handlers decide the status code and
//! every field of the body; the shell around the library only encodes them.

use vstd::prelude::*;
use crate::auth::{authenticate, spec_auth_ok};
use crate::backend::{Backend, EnvSignals, detect_backend, backend_name, spec_backend_name};
use crate::clipboard::{
    ClipboardError, read_clipboard, write_clipboard, spec_error_text, spec_failed_detail,
};
use crate::config::AppState;

verus! {

/// A write request's payload: the content to store and its declared type.
/// The type is carried through but never interpreted.
#[derive(Clone, Debug)]
pub struct ClipboardContent {
    pub content: String,
    pub content_type: String,
}

/// The content type a write request gets when it declares none.
pub fn default_content_type() -> (r: String)
    ensures
        r@ == "text/plain"@,
{
    String::from_str("text/plain")
}

/// Completes a write request's payload, defaulting the declared type.
pub fn content_with_default(content: String, content_type: Option<String>) -> (c: ClipboardContent)
    ensures
        c.content == content,
        content_type matches Some(t) ==> c.content_type == t,
        content_type is None ==> c.content_type@ == "text/plain"@,
{
    let content_type = match content_type {
        Some(t) => t,
        None => default_content_type(),
    };
    ClipboardContent { content, content_type }
}

/// The body of a successful clipboard reply. Content and its type are only
/// present for a read; the timestamp is minted when the reply is shaped.
#[derive(Clone, Debug)]
pub struct ClipboardResponse {
    pub success: bool,
    pub content: Option<String>,
    pub content_type: Option<String>,
    pub timestamp: String,
    pub message: Option<String>,
}

/// The body of a failed request: the HTTP status to send and the detail
/// text explaining the failure.
#[derive(Clone, Debug)]
pub struct ApiFailure {
    pub status: u16,
    pub detail: String,
}

/// Everything a clipboard endpoint can answer: a successful body, sent with
/// status 200, or a failure with its own status and detail.
#[derive(Clone, Debug)]
pub enum ApiReply {
    Success(ClipboardResponse),
    Failure(ApiFailure),
}

impl ApiReply {
    /// The HTTP status code this reply is sent with.
    pub fn status_code(&self) -> (s: u16)
        ensures
            self is Success ==> s == 200,
            self matches ApiReply::Failure(f) ==> s == f.status,
    {
        match self {
            ApiReply::Success(_) => 200,
            ApiReply::Failure(f) => f.status,
        }
    }
}

/// The detail text of a failed read, embedding the underlying cause whole.
pub open spec fn spec_get_failure_detail(cause: Seq<char>) -> Seq<char> {
    "Failed to get clipboard content: "@ + cause
}

/// The detail text of a failed write, embedding the underlying cause whole.
pub open spec fn spec_set_failure_detail(cause: Seq<char>) -> Seq<char> {
    "Failed to set clipboard content: "@ + cause
}

/// The detail text of a failed clear, embedding the underlying cause whole.
pub open spec fn spec_clear_failure_detail(cause: Seq<char>) -> Seq<char> {
    "Failed to clear clipboard: "@ + cause
}

/// The reply refused requests get: status 401 and an unauthorized body.
fn unauthorized_reply() -> (r: ApiReply)
    ensures
        r matches ApiReply::Failure(f) && f.status == 401 && f.detail@ == "unauthorized"@,
{
    ApiReply::Failure(ApiFailure { status: 401, detail: String::from_str("unauthorized") })
}

/// Shapes the reply of a read: a success body carrying the content and its
/// type, or status 500 with the read failure detail.
pub fn get_reply(result: Result<(String, String), ClipboardError>, timestamp: String) -> (r: ApiReply)
    ensures
        result matches Ok(p) ==> (r matches ApiReply::Success(resp)
            && resp.success
            && resp.content == Some(p.0)
            && resp.content_type == Some(p.1)
            && resp.timestamp == timestamp
            && (resp.message matches Some(m) && m@ == "Clipboard content retrieved successfully"@)),
        result matches Err(e) ==> (r matches ApiReply::Failure(f)
            && f.status == 500
            && f.detail@ == spec_get_failure_detail(spec_error_text(e))),
{
    match result {
        Ok((content, content_type)) => ApiReply::Success(ClipboardResponse {
            success: true,
            content: Some(content),
            content_type: Some(content_type),
            timestamp,
            message: Some(String::from_str("Clipboard content retrieved successfully")),
        }),
        Err(e) => {
            let detail = String::from_str("Failed to get clipboard content: ").concat(e.text().as_str());
            ApiReply::Failure(ApiFailure { status: 500, detail })
        },
    }
}

/// Shapes the reply of a write: a bare success body, or status 500 with the
/// write failure detail.
pub fn set_reply(result: Result<(), ClipboardError>, timestamp: String) -> (r: ApiReply)
    ensures
        result is Ok ==> (r matches ApiReply::Success(resp)
            && resp.success
            && resp.content is None
            && resp.content_type is None
            && resp.timestamp == timestamp
            && (resp.message matches Some(m) && m@ == "Clipboard content set successfully"@)),
        result matches Err(e) ==> (r matches ApiReply::Failure(f)
            && f.status == 500
            && f.detail@ == spec_set_failure_detail(spec_error_text(e))),
{
    match result {
        Ok(()) => ApiReply::Success(ClipboardResponse {
            success: true,
            content: None,
            content_type: None,
            timestamp,
            message: Some(String::from_str("Clipboard content set successfully")),
        }),
        Err(e) => {
            let detail = String::from_str("Failed to set clipboard content: ").concat(e.text().as_str());
            ApiReply::Failure(ApiFailure { status: 500, detail })
        },
    }
}

/// Shapes the reply of a clear: a bare success body, or status 500 with the
/// clear failure detail.
pub fn clear_reply(result: Result<(), ClipboardError>, timestamp: String) -> (r: ApiReply)
    ensures
        result is Ok ==> (r matches ApiReply::Success(resp)
            && resp.success
            && resp.content is None
            && resp.content_type is None
            && resp.timestamp == timestamp
            && (resp.message matches Some(m) && m@ == "Clipboard cleared successfully"@)),
        result matches Err(e) ==> (r matches ApiReply::Failure(f)
            && f.status == 500
            && f.detail@ == spec_clear_failure_detail(spec_error_text(e))),
{
    match result {
        Ok(()) => ApiReply::Success(ClipboardResponse {
            success: true,
            content: None,
            content_type: None,
            timestamp,
            message: Some(String::from_str("Clipboard cleared successfully")),
        }),
        Err(e) => {
            let detail = String::from_str("Failed to clear clipboard: ").concat(e.text().as_str());
            ApiReply::Failure(ApiFailure { status: 500, detail })
        },
    }
}

/// Relies on chrono::Utc::now and chrono::DateTime::to_rfc3339: an RFC 3339
/// rendering of the current time. The clock decides the result, so nothing
/// is promised of it.
#[verifier::external_body]
fn now_rfc3339() -> (r: String) {
    chrono::Utc::now().to_rfc3339()
}

/// Serves an authenticated clipboard read: refused callers get 401 with an
/// unauthorized body; with no display indicator set the read always fails
/// with status 500 reporting the unavailable backend; any other failure is
/// a 500 carrying the read failure detail.
pub fn get_clipboard(state: &AppState, env: &EnvSignals, header_key: Option<String>, query_key: Option<String>) -> (r: ApiReply)
    ensures
        !spec_auth_ok(header_key, query_key, state.api_key@) ==> (r matches ApiReply::Failure(f)
            && f.status == 401
            && f.detail@ == "unauthorized"@),
        spec_auth_ok(header_key, query_key, state.api_key@) ==> match r {
            ApiReply::Success(resp) => {
                &&& resp.success
                &&& resp.content is Some
                &&& (resp.content_type matches Some(t) && t@ == "text/plain"@)
                &&& (resp.message matches Some(m) && m@ == "Clipboard content retrieved successfully"@)
            },
            ApiReply::Failure(f) => {
                &&& f.status == 500
                &&& exists|cause: Seq<char>| f.detail@ == spec_get_failure_detail(cause)
            },
        },
        (spec_auth_ok(header_key, query_key, state.api_key@) && !env.wayland_display && !env.x11_display)
            ==> (r matches ApiReply::Failure(f)
                && f.status == 500
                && f.detail@ == spec_get_failure_detail("No clipboard backend available"@)),
{
    if authenticate(state, &header_key, &query_key).is_err() {
        return unauthorized_reply();
    }
    let result = read_clipboard(env);
    let timestamp = now_rfc3339();
    get_reply(result, timestamp)
}

/// Serves an authenticated clipboard write: refused callers get 401 with an
/// unauthorized body; with no display indicator set the write always fails
/// with status 500 reporting the unavailable backend; any other failure is
/// a 500 carrying the write failure detail.
pub fn set_clipboard(state: &AppState, env: &EnvSignals, header_key: Option<String>, query_key: Option<String>, payload: ClipboardContent) -> (r: ApiReply)
    ensures
        !spec_auth_ok(header_key, query_key, state.api_key@) ==> (r matches ApiReply::Failure(f)
            && f.status == 401
            && f.detail@ == "unauthorized"@),
        spec_auth_ok(header_key, query_key, state.api_key@) ==> match r {
            ApiReply::Success(resp) => {
                &&& resp.success
                &&& resp.content is None
                &&& resp.content_type is None
                &&& (resp.message matches Some(m) && m@ == "Clipboard content set successfully"@)
            },
            ApiReply::Failure(f) => {
                &&& f.status == 500
                &&& exists|cause: Seq<char>| f.detail@ == spec_set_failure_detail(cause)
            },
        },
        (spec_auth_ok(header_key, query_key, state.api_key@) && !env.wayland_display && !env.x11_display)
            ==> (r matches ApiReply::Failure(f)
                && f.status == 500
                && f.detail@ == spec_set_failure_detail("No clipboard backend available"@)),
{
    if authenticate(state, &header_key, &query_key).is_err() {
        return unauthorized_reply();
    }
    let result = write_clipboard(env, payload.content.as_str(), payload.content_type.as_str());
    let timestamp = now_rfc3339();
    set_reply(result, timestamp)
}

/// Serves an authenticated clipboard clear, which is a write of the empty
/// string with type text/plain through the very same path, so it fails
/// exactly as a write does (an unavailable backend included).
pub fn clear_clipboard(state: &AppState, env: &EnvSignals, header_key: Option<String>, query_key: Option<String>) -> (r: ApiReply)
    ensures
        !spec_auth_ok(header_key, query_key, state.api_key@) ==> (r matches ApiReply::Failure(f)
            && f.status == 401
            && f.detail@ == "unauthorized"@),
        spec_auth_ok(header_key, query_key, state.api_key@) ==> match r {
            ApiReply::Success(resp) => {
                &&& resp.success
                &&& resp.content is None
                &&& resp.content_type is None
                &&& (resp.message matches Some(m) && m@ == "Clipboard cleared successfully"@)
            },
            ApiReply::Failure(f) => {
                &&& f.status == 500
                &&& exists|cause: Seq<char>| f.detail@ == spec_clear_failure_detail(cause)
            },
        },
        (spec_auth_ok(header_key, query_key, state.api_key@) && !env.wayland_display && !env.x11_display)
            ==> (r matches ApiReply::Failure(f)
                && f.status == 500
                && f.detail@ == spec_clear_failure_detail("No clipboard backend available"@)),
{
    if authenticate(state, &header_key, &query_key).is_err() {
        return unauthorized_reply();
    }
    let result = write_clipboard(env, "", "text/plain");
    let timestamp = now_rfc3339();
    clear_reply(result, timestamp)
}

/// The fixed endpoint listing the root endpoint advertises.
#[derive(Clone, Debug)]
pub struct EndpointsInfo {
    pub health: String,
    pub get_clipboard: String,
    pub set_clipboard: String,
    pub docs: Option<String>,
}

/// The body of the root endpoint: service metadata and the backend a
/// request made right now would use. It is public diagnostics and skips
/// authentication; it discloses no clipboard content.
#[derive(Clone, Debug)]
pub struct RootInfo {
    pub service: String,
    pub version: String,
    pub status: String,
    pub backend: String,
    pub endpoints: EndpointsInfo,
}

/// Serves the root endpoint. The backend field is always one of the four
/// backend identifiers, and "none" whenever no display indicator is set.
pub fn root(env: &EnvSignals) -> (r: RootInfo)
    ensures
        r.service@ == "Overlay Companion MCP - Clipboard Bridge"@,
        r.version@ == "0.1.0"@,
        r.status@ == "running"@,
        exists|b: Backend| r.backend@ == spec_backend_name(b),
        !env.wayland_display && !env.x11_display ==> r.backend@ == spec_backend_name(Backend::Unavailable),
        r.endpoints.health@ == "/health"@,
        r.endpoints.get_clipboard@ == "/clipboard"@,
        r.endpoints.set_clipboard@ == "/clipboard (POST)"@,
        r.endpoints.docs is None,
{
    let b = detect_backend(env);
    let backend = backend_name(&b);
    proof {
        assert(backend@ == spec_backend_name(b));
    }
    RootInfo {
        service: String::from_str("Overlay Companion MCP - Clipboard Bridge"),
        version: String::from_str("0.1.0"),
        status: String::from_str("running"),
        backend,
        endpoints: EndpointsInfo {
            health: String::from_str("/health"),
            get_clipboard: String::from_str("/clipboard"),
            set_clipboard: String::from_str("/clipboard (POST)"),
            docs: None,
        },
    }
}

/// The body of the health endpoint: liveness, a response-time timestamp and
/// the backend a request made right now would use. Public diagnostics, like
/// the root endpoint.
#[derive(Clone, Debug)]
pub struct HealthInfo {
    pub status: String,
    pub timestamp: String,
    pub backend: String,
}

/// Serves the health endpoint. The backend field is always one of the four
/// backend identifiers, and "none" whenever no display indicator is set.
pub fn health(env: &EnvSignals) -> (r: HealthInfo)
    ensures
        r.status@ == "healthy"@,
        exists|b: Backend| r.backend@ == spec_backend_name(b),
        !env.wayland_display && !env.x11_display ==> r.backend@ == spec_backend_name(Backend::Unavailable),
{
    let b = detect_backend(env);
    let backend = backend_name(&b);
    proof {
        assert(backend@ == spec_backend_name(b));
    }
    HealthInfo { status: String::from_str("healthy"), timestamp: now_rfc3339(), backend }
}

/// A write whose subprocess exited non-zero surfaces as a 500 whose detail
/// text embeds the captured standard error whole, as its suffix.
pub proof fn lemma_write_failure_embeds_stderr(program: Seq<char>, stderr: Seq<char>)
    ensures
        ({
            let d = spec_set_failure_detail(spec_failed_detail(program, stderr));
            &&& d.len() >= stderr.len()
            &&& d.subrange(d.len() - stderr.len(), d.len() as int) == stderr
        }),
{
    let d = spec_set_failure_detail(spec_failed_detail(program, stderr));
    assert(d.subrange(d.len() - stderr.len(), d.len() as int) =~= stderr);
}

} // verus!
