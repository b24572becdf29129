use clipboard_bridge::backend::EnvSignals;
use clipboard_bridge::companion::{
    bridge_base_url, bridge_clipboard_url, bridge_health_url, get_overlay_capabilities,
    remove_overlay, set_mode, RemoveOverlayParams, SetModeParams,
};

#[test]
fn capabilities_follow_the_wayland_indicator() {
    let caps = get_overlay_capabilities(&EnvSignals { wayland_display: true, x11_display: false });
    assert_eq!(caps.compositor, "wayland");
    assert!(caps.supports_click_through);
    assert!(caps.supports_opacity);

    let caps = get_overlay_capabilities(&EnvSignals { wayland_display: false, x11_display: true });
    assert_eq!(caps.compositor, "unknown");
}

#[test]
fn remove_overlay_acknowledges_the_identifier() {
    let msg = remove_overlay(RemoveOverlayParams { overlay_id: "ovl-3-4".to_string() });
    assert_eq!(msg, "Overlay ovl-3-4 removed - Rust");
}

#[test]
fn set_mode_accepts_the_two_modes_case_insensitively() {
    let d = set_mode(SetModeParams { mode: "SLEEP".to_string() });
    assert!(d.ok);
    assert_eq!(d.active_mode, "sleep");

    let d = set_mode(SetModeParams { mode: "passive_annotation".to_string() });
    assert!(d.ok);
    assert_eq!(d.active_mode, "passive_annotation");
}

#[test]
fn bridge_urls_are_assembled_from_the_configured_base() {
    assert_eq!(bridge_base_url(None), "http://localhost:8765");
    assert_eq!(bridge_base_url(Some("http://bridge:9999".to_string())), "http://bridge:9999");
    assert_eq!(
        bridge_clipboard_url("http://localhost:8765", "overlay-companion-mcp"),
        "http://localhost:8765/clipboard?api_key=overlay-companion-mcp"
    );
    assert_eq!(bridge_health_url("http://localhost:8765"), "http://localhost:8765/health");
}

#[test]
fn set_mode_falls_back_to_passive_annotation() {
    let d = set_mode(SetModeParams { mode: "active_clicking".to_string() });
    assert!(!d.ok);
    assert_eq!(d.active_mode, "passive_annotation");
}
