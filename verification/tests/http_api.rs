use clipboard_bridge::api::{
    clear_clipboard, clear_reply, content_with_default, default_content_type, get_clipboard,
    get_reply, health, root, set_clipboard, set_reply, ApiReply, ClipboardContent,
};
use clipboard_bridge::auth::authenticate;
use clipboard_bridge::backend::EnvSignals;
use clipboard_bridge::clipboard::{read_result_of, write_result_of, ClipboardError};
use clipboard_bridge::config::{parse_port, resolve_config, AppState};
use clipboard_bridge::subprocess::RunOutcome;

fn quiet_env() -> EnvSignals {
    EnvSignals { wayland_display: false, x11_display: false }
}

fn state(secret: &str) -> AppState {
    AppState { api_key: secret.to_string() }
}

fn expect_failure(r: ApiReply) -> (u16, String) {
    let status = r.status_code();
    match r {
        ApiReply::Failure(f) => (status, f.detail),
        ApiReply::Success(_) => panic!("expected a failure reply"),
    }
}

#[test]
fn missing_and_wrong_credentials_yield_401() {
    let st = state("secret123");
    let (code, detail) = expect_failure(get_clipboard(&st, &quiet_env(), None, None));
    assert_eq!(code, 401);
    assert_eq!(detail, "unauthorized");

    let wrong = Some("nope".to_string());
    let (code, detail) = expect_failure(set_clipboard(
        &st,
        &quiet_env(),
        wrong,
        None,
        ClipboardContent { content: "abc".to_string(), content_type: "text/plain".to_string() },
    ));
    assert_eq!(code, 401);
    assert_eq!(detail, "unauthorized");

    let (code, _) = expect_failure(clear_clipboard(&st, &quiet_env(), None, Some("no".to_string())));
    assert_eq!(code, 401);
}

#[test]
fn exact_credential_passes_via_header_or_query() {
    let st = state("secret123");
    assert!(authenticate(&st, &Some("secret123".to_string()), &None).is_ok());
    assert!(authenticate(&st, &None, &Some("secret123".to_string())).is_ok());
    assert_eq!(authenticate(&st, &None, &None), Err(401));
    assert_eq!(authenticate(&st, &Some("".to_string()), &None), Err(401));
    // the header takes precedence over the query parameter
    assert_eq!(authenticate(&st, &Some("bad".to_string()), &Some("secret123".to_string())), Err(401));
    assert!(authenticate(&st, &Some("secret123".to_string()), &Some("bad".to_string())).is_ok());
}

#[test]
fn authenticated_requests_without_backend_yield_500_details() {
    let st = state("secret123");
    let key = || Some("secret123".to_string());

    let (code, detail) = expect_failure(get_clipboard(&st, &quiet_env(), key(), None));
    assert_eq!(code, 500);
    assert_eq!(detail, "Failed to get clipboard content: No clipboard backend available");

    let payload =
        ClipboardContent { content: "abc".to_string(), content_type: "text/plain".to_string() };
    let (code, detail) = expect_failure(set_clipboard(&st, &quiet_env(), key(), None, payload));
    assert_eq!(code, 500);
    assert_eq!(detail, "Failed to set clipboard content: No clipboard backend available");

    let (code, detail) = expect_failure(clear_clipboard(&st, &quiet_env(), None, key()));
    assert_eq!(code, 500);
    assert_eq!(detail, "Failed to clear clipboard: No clipboard backend available");
}

#[test]
fn write_failure_embeds_captured_stderr_in_detail() {
    let stderr_text = "Error: target STRING not available";
    let out = RunOutcome::Completed {
        exit_ok: false,
        stdout: String::new(),
        stderr: stderr_text.to_string(),
    };
    let reply = set_reply(write_result_of("xclip", out), "ts".to_string());
    let (code, detail) = expect_failure(reply);
    assert_eq!(code, 500);
    assert_eq!(detail, "Failed to set clipboard content: xclip failed: Error: target STRING not available");
    assert!(detail.contains(stderr_text));
}

#[test]
fn post_then_get_scenario_with_header_key() {
    let st = state("secret123");
    // POST /clipboard with X-API-Key: secret123 and {"content":"abc"}
    let payload = content_with_default("abc".to_string(), None);
    assert_eq!(payload.content_type, "text/plain");
    assert!(authenticate(&st, &Some("secret123".to_string()), &None).is_ok());
    // against a working backend the write subprocess exits cleanly
    let write_out = RunOutcome::Completed { exit_ok: true, stdout: String::new(), stderr: String::new() };
    let reply = set_reply(write_result_of("wl-copy", write_out), "t1".to_string());
    assert_eq!(reply.status_code(), 200);
    match reply {
        ApiReply::Success(resp) => {
            assert!(resp.success);
            assert_eq!(resp.message.as_deref(), Some("Clipboard content set successfully"));
            assert_eq!(resp.timestamp, "t1");
            assert!(resp.content.is_none());
        }
        ApiReply::Failure(f) => panic!("write refused: {}", f.detail),
    }
    // a following GET /clipboard with the same header reads the content back
    let read_out = RunOutcome::Completed { exit_ok: true, stdout: "abc".to_string(), stderr: String::new() };
    let reply = get_reply(read_result_of("wl-paste", read_out), "t2".to_string());
    assert_eq!(reply.status_code(), 200);
    match reply {
        ApiReply::Success(resp) => {
            assert!(resp.success);
            assert_eq!(resp.content.as_deref(), Some("abc"));
            assert_eq!(resp.content_type.as_deref(), Some("text/plain"));
            assert_eq!(resp.message.as_deref(), Some("Clipboard content retrieved successfully"));
        }
        ApiReply::Failure(f) => panic!("read refused: {}", f.detail),
    }
}

#[test]
fn clear_reply_mirrors_write_reply_semantics() {
    let ok = clear_reply(Ok(()), "ts".to_string());
    match ok {
        ApiReply::Success(resp) => {
            assert_eq!(resp.message.as_deref(), Some("Clipboard cleared successfully"));
            assert!(resp.content.is_none() && resp.content_type.is_none());
        }
        ApiReply::Failure(f) => panic!("clear refused: {}", f.detail),
    }
    let err = clear_reply(Err(ClipboardError::BackendUnavailable), "ts".to_string());
    let (code, detail) = expect_failure(err);
    assert_eq!(code, 500);
    assert_eq!(detail, "Failed to clear clipboard: No clipboard backend available");
}

#[test]
fn root_reports_service_metadata_and_backend() {
    let info = root(&quiet_env());
    assert_eq!(info.service, "Overlay Companion MCP - Clipboard Bridge");
    assert_eq!(info.version, "0.1.0");
    assert_eq!(info.status, "running");
    assert_eq!(info.backend, "none");
    assert_eq!(info.endpoints.health, "/health");
    assert_eq!(info.endpoints.get_clipboard, "/clipboard");
    assert_eq!(info.endpoints.set_clipboard, "/clipboard (POST)");
    assert!(info.endpoints.docs.is_none());
}

#[test]
fn health_reports_liveness_and_a_timestamp() {
    let h = health(&quiet_env());
    assert_eq!(h.status, "healthy");
    assert_eq!(h.backend, "none");
    // minted at response time by the clock; RFC 3339 renderings are never empty
    assert!(!h.timestamp.is_empty());
    assert!(h.timestamp.contains('T'));
}

#[test]
fn content_type_defaults_to_text_plain() {
    assert_eq!(default_content_type(), "text/plain");
    let kept = content_with_default("x".to_string(), Some("image/png".to_string()));
    assert_eq!(kept.content_type, "image/png");
    assert_eq!(kept.content, "x");
}

#[test]
fn port_settings_parse_like_the_standard_numeric_parser() {
    for s in ["8765", "+80", "0", "007", "65535", "65536", "99999999", "", "+", "12a", "a12", "-1", " 80", "8 0"] {
        assert_eq!(parse_port(s), s.parse::<u16>().ok(), "mismatch on {:?}", s);
    }
    assert_eq!(parse_port("8765"), Some(8765));
    assert_eq!(parse_port("007"), Some(7));
    assert_eq!(parse_port("65536"), None);
}

#[test]
fn config_defaults_apply_only_where_nothing_was_set() {
    let c = resolve_config(None, None, None);
    assert_eq!(c.host, "0.0.0.0");
    assert_eq!(c.port, 8765);
    assert_eq!(c.api_key, "overlay-companion-mcp");

    let c = resolve_config(Some("127.0.0.1".to_string()), Some(9000), Some("k".to_string()));
    assert_eq!(c.host, "127.0.0.1");
    assert_eq!(c.port, 9000);
    assert_eq!(c.api_key, "k");
}
