//! The small decision logic of the companion tool router that calls this
//! bridge over HTTP: mode validation, capability reporting, the addresses
//! it calls the bridge on, and the plain data shapes of its answers.
//! Everything that merely relays fixed canned answers stays outside the
//! library.

use vstd::prelude::*;
use crate::backend::EnvSignals;

verus! {

/// The capabilities the companion reports for overlay drawing.
#[derive(Clone, Debug)]
pub struct CapabilitiesResponse {
    pub compositor: String,
    pub supports_click_through: bool,
    pub supports_opacity: bool,
}

/// The shape of a clipboard-bridge availability report.
#[derive(Clone, Debug)]
pub struct ClipboardStatus {
    pub available: bool,
    pub backend: String,
    pub status: String,
}

/// The parameters of a request to remove an overlay.
#[derive(Clone, Debug)]
pub struct RemoveOverlayParams {
    pub overlay_id: String,
}

/// The parameters of a request to switch the operational mode.
#[derive(Clone, Debug)]
pub struct SetModeParams {
    pub mode: String,
}

/// Reports the overlay capabilities: the compositor is called wayland
/// exactly when the Wayland indicator is set, and unknown otherwise.
pub fn get_overlay_capabilities(env: &EnvSignals) -> (r: CapabilitiesResponse)
    ensures
        env.wayland_display ==> r.compositor@ == "wayland"@,
        !env.wayland_display ==> r.compositor@ == "unknown"@,
        r.supports_click_through,
        r.supports_opacity,
{
    let compositor = if env.wayland_display {
        String::from_str("wayland")
    } else {
        String::from_str("unknown")
    };
    CapabilitiesResponse { compositor, supports_click_through: true, supports_opacity: true }
}

/// The acknowledgement text for removing an overlay by identifier.
pub fn remove_overlay(params: RemoveOverlayParams) -> (r: String)
    ensures
        r@ == "Overlay "@ + params.overlay_id@ + " removed - Rust"@,
{
    String::from_str("Overlay ").concat(params.overlay_id.as_str()).concat(" removed - Rust")
}

/// The bridge address the companion talks to, defaulting to the local
/// bridge on its default port when none is configured.
pub fn bridge_base_url(configured: Option<String>) -> (r: String)
    ensures
        configured matches Some(u) ==> r == u,
        configured is None ==> r@ == "http://localhost:8765"@,
{
    match configured {
        Some(u) => u,
        None => String::from_str("http://localhost:8765"),
    }
}

/// The URL of the bridge's clipboard endpoint, with the credential carried
/// as the query parameter.
pub fn bridge_clipboard_url(bridge_url: &str, api_key: &str) -> (r: String)
    ensures
        r@ == bridge_url@ + "/clipboard?api_key="@ + api_key@,
{
    String::from_str(bridge_url).concat("/clipboard?api_key=").concat(api_key)
}

/// The URL of the bridge's health endpoint.
pub fn bridge_health_url(bridge_url: &str) -> (r: String)
    ensures
        r@ == bridge_url@ + "/health"@,
{
    String::from_str(bridge_url).concat("/health")
}

/// What a mode's characters are once case is folded away.
pub uninterp spec fn lowercased(s: Seq<char>) -> Seq<char>;

/// Relies on str::to_lowercase: the result is a function of the input's
/// characters alone, named `lowercased` here.
#[verifier::external_body]
fn to_lowercase(s: &str) -> (r: String)
    ensures
        r@ == lowercased(s@),
{
    s.to_lowercase()
}

/// The companion's answer to a mode switch: whether the requested mode was
/// accepted, and the mode now active.
#[derive(Clone, Debug)]
pub struct ModeDecision {
    pub ok: bool,
    pub active_mode: String,
}

/// Validates a requested operational mode, case-insensitively: only sleep
/// and passive annotation exist, and anything else falls back to passive
/// annotation, which never clicks on its own.
pub fn set_mode(params: SetModeParams) -> (r: ModeDecision)
    ensures
        r.ok == (lowercased(params.mode@) == "sleep"@ || lowercased(params.mode@) == "passive_annotation"@),
        r.ok ==> r.active_mode@ == lowercased(params.mode@),
        !r.ok ==> r.active_mode@ == "passive_annotation"@,
{
    let mode = to_lowercase(params.mode.as_str());
    let is_sleep = mode == String::from_str("sleep");
    let is_passive = mode == String::from_str("passive_annotation");
    if is_sleep || is_passive {
        ModeDecision { ok: true, active_mode: mode }
    } else {
        ModeDecision { ok: false, active_mode: String::from_str("passive_annotation") }
    }
}

} // verus!
