//! Backend detection: a priority-ordered decision table from display-server
//! signals and tool availability to the clipboard backend to use.

use vstd::prelude::*;

verus! {

/// The display-server indicators read from the process environment.
/// Each records only the presence of its variable, never its content.
#[derive(Clone, Copy, Debug, PartialEq, Eq, Structural)]
pub struct EnvSignals {
    /// The Wayland session variable is set.
    pub wayland_display: bool,
    /// The X11 display variable is set.
    pub x11_display: bool,
}

/// Which clipboard utilities resolve on the executable search path,
/// for one direction (the Wayland tool differs between read and write).
#[derive(Clone, Copy, Debug, PartialEq, Eq, Structural)]
pub struct ToolAvailability {
    /// The Wayland tool for the direction at hand resolves.
    pub wayland_tool: bool,
    /// The `xclip` utility resolves.
    pub xclip: bool,
    /// The `xsel` utility resolves.
    pub xsel: bool,
}

/// The clipboard backend selected for a request. Detection is repeated per
/// request, so a display server starting later is picked up.
#[derive(Clone, Copy, Debug, PartialEq, Eq, Structural)]
pub enum Backend {
    Wayland,
    Xclip,
    Xsel,
    Unavailable,
}

/// The backend the priority chain selects: Wayland first, then the X11
/// tools in order, else none. At most one backend is ever selected.
pub open spec fn spec_select(env: EnvSignals, tools: ToolAvailability) -> Backend {
    if env.wayland_display && tools.wayland_tool {
        Backend::Wayland
    } else if env.x11_display && tools.xclip {
        Backend::Xclip
    } else if env.x11_display && tools.xsel {
        Backend::Xsel
    } else {
        Backend::Unavailable
    }
}

/// Walks the priority chain over already-probed signals and tools.
pub fn select_backend(env: &EnvSignals, tools: &ToolAvailability) -> (b: Backend)
    ensures
        b == spec_select(*env, *tools),
{
    if env.wayland_display && tools.wayland_tool {
        Backend::Wayland
    } else if env.x11_display && tools.xclip {
        Backend::Xclip
    } else if env.x11_display && tools.xsel {
        Backend::Xsel
    } else {
        Backend::Unavailable
    }
}

/// Wayland takes strict priority: whenever its indicator is set and its tool
/// resolves, the selection is Wayland, whatever the X11 side looks like.
pub proof fn lemma_wayland_priority(env: EnvSignals, tools: ToolAvailability)
    requires
        env.wayland_display,
        tools.wayland_tool,
    ensures
        spec_select(env, tools) is Wayland,
{
}

/// No backend is selected exactly when no indicator has a resolvable tool
/// behind it: in particular for an environment with no indicators at all,
/// and for one whose indicators are set but whose utilities are missing.
pub proof fn lemma_select_unavailable_iff(env: EnvSignals, tools: ToolAvailability)
    ensures
        spec_select(env, tools) is Unavailable <==> {
            &&& !(env.wayland_display && tools.wayland_tool)
            &&& !(env.x11_display && (tools.xclip || tools.xsel))
        },
{
}

/// Relies on which::which: returns Ok exactly when an executable of that
/// name resolves on the search path. What resolves depends on the machine
/// and may change between calls, so nothing is promised of the result.
#[verifier::external_body]
fn tool_resolvable(name: &str) -> (r: bool) {
    which::which(name).is_ok()
}

/// Probes the search path afresh for the utilities of one direction. The
/// Wayland tool differs per direction, so its name is passed in.
pub(crate) fn probe_tools(wayland_tool: &str) -> ToolAvailability {
    ToolAvailability {
        wayland_tool: tool_resolvable(wayland_tool),
        xclip: tool_resolvable("xclip"),
        xsel: tool_resolvable("xsel"),
    }
}

/// Detects the backend a request would use right now: fresh environment
/// signals are handed in by the caller, the search path is probed anew, and
/// the priority chain decides. Detection spawns nothing.
pub fn detect_backend(env: &EnvSignals) -> (b: Backend)
    ensures
        exists|t: ToolAvailability| b == spec_select(*env, t),
        !env.wayland_display && !env.x11_display ==> b is Unavailable,
        b is Wayland ==> env.wayland_display,
        b is Xclip || b is Xsel ==> env.x11_display,
{
    let tools = probe_tools("wl-copy");
    let b = select_backend(env, &tools);
    proof {
        assert(b == spec_select(*env, tools));
    }
    b
}

/// The identifier each backend reports on the status endpoints.
pub open spec fn spec_backend_name(b: Backend) -> Seq<char> {
    match b {
        Backend::Wayland => "wayland"@,
        Backend::Xclip => "xclip"@,
        Backend::Xsel => "xsel"@,
        Backend::Unavailable => "none"@,
    }
}

/// Renders a backend as the identifier used on the status endpoints.
pub fn backend_name(b: &Backend) -> (r: String)
    ensures
        r@ == spec_backend_name(*b),
{
    match b {
        Backend::Wayland => String::from_str("wayland"),
        Backend::Xclip => String::from_str("xclip"),
        Backend::Xsel => String::from_str("xsel"),
        Backend::Unavailable => String::from_str("none"),
    }
}

/// An external command to invoke: a program name and its arguments, in
/// order. One fixed spec exists per backend and direction.
#[derive(Clone, Debug)]
pub struct CommandSpec {
    pub program: String,
    pub args: Vec<String>,
}

/// The fixed read command of each backend: the Wayland paste tool without a
/// trailing newline, or the X11 tool told to print the clipboard selection.
pub open spec fn spec_is_read_command(b: Backend, program: Seq<char>, args: Seq<String>) -> bool {
    match b {
        Backend::Wayland => {
            &&& program == "wl-paste"@
            &&& args.len() == 1
            &&& args[0]@ == "--no-newline"@
        },
        Backend::Xclip => {
            &&& program == "xclip"@
            &&& args.len() == 3
            &&& args[0]@ == "-selection"@
            &&& args[1]@ == "clipboard"@
            &&& args[2]@ == "-o"@
        },
        Backend::Xsel => {
            &&& program == "xsel"@
            &&& args.len() == 2
            &&& args[0]@ == "--clipboard"@
            &&& args[1]@ == "--output"@
        },
        Backend::Unavailable => false,
    }
}

/// The fixed write command of each backend: the Wayland copy tool, or the
/// X11 tool told to fill the clipboard selection; all take the payload on
/// standard input.
pub open spec fn spec_is_write_command(b: Backend, program: Seq<char>, args: Seq<String>) -> bool {
    match b {
        Backend::Wayland => {
            &&& program == "wl-copy"@
            &&& args.len() == 0
        },
        Backend::Xclip => {
            &&& program == "xclip"@
            &&& args.len() == 2
            &&& args[0]@ == "-selection"@
            &&& args[1]@ == "clipboard"@
        },
        Backend::Xsel => {
            &&& program == "xsel"@
            &&& args.len() == 2
            &&& args[0]@ == "--clipboard"@
            &&& args[1]@ == "--input"@
        },
        Backend::Unavailable => false,
    }
}

/// Resolves the read command for the given signals and tools: the command of
/// the selected backend, or nothing when no backend is selected.
pub fn read_command(env: &EnvSignals, tools: &ToolAvailability) -> (r: Option<CommandSpec>)
    ensures
        r is Some <==> !(spec_select(*env, *tools) is Unavailable),
        r matches Some(c) ==> spec_is_read_command(spec_select(*env, *tools), c.program@, c.args@),
{
    match select_backend(env, tools) {
        Backend::Wayland => {
            let mut args: Vec<String> = Vec::new();
            args.push(String::from_str("--no-newline"));
            Some(CommandSpec { program: String::from_str("wl-paste"), args })
        },
        Backend::Xclip => {
            let mut args: Vec<String> = Vec::new();
            args.push(String::from_str("-selection"));
            args.push(String::from_str("clipboard"));
            args.push(String::from_str("-o"));
            Some(CommandSpec { program: String::from_str("xclip"), args })
        },
        Backend::Xsel => {
            let mut args: Vec<String> = Vec::new();
            args.push(String::from_str("--clipboard"));
            args.push(String::from_str("--output"));
            Some(CommandSpec { program: String::from_str("xsel"), args })
        },
        Backend::Unavailable => None,
    }
}

/// Resolves the write command for the given signals and tools: the command
/// of the selected backend, or nothing when no backend is selected.
pub fn write_command(env: &EnvSignals, tools: &ToolAvailability) -> (r: Option<CommandSpec>)
    ensures
        r is Some <==> !(spec_select(*env, *tools) is Unavailable),
        r matches Some(c) ==> spec_is_write_command(spec_select(*env, *tools), c.program@, c.args@),
{
    match select_backend(env, tools) {
        Backend::Wayland => {
            let args: Vec<String> = Vec::new();
            Some(CommandSpec { program: String::from_str("wl-copy"), args })
        },
        Backend::Xclip => {
            let mut args: Vec<String> = Vec::new();
            args.push(String::from_str("-selection"));
            args.push(String::from_str("clipboard"));
            Some(CommandSpec { program: String::from_str("xclip"), args })
        },
        Backend::Xsel => {
            let mut args: Vec<String> = Vec::new();
            args.push(String::from_str("--clipboard"));
            args.push(String::from_str("--input"));
            Some(CommandSpec { program: String::from_str("xsel"), args })
        },
        Backend::Unavailable => None,
    }
}

} // verus!
