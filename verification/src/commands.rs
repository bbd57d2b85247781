//! The operations that a dispatcher offers to its callers: requests in,
//! results or error text out.

use vstd::prelude::*;
use vstd::string::*;
use crate::platform::{
    app_config_dir, app_data_dir, apply_change, current_platform, error_text,
    no_config_dir_text, no_data_dir_text, open_failure_text, open_system, outcome_text,
    platform_of, report_after, reports, run_shell_capture, shell_flag, shell_invocation,
    shell_program, spawn_shell, window_after, CapturedOutput, ErrorView, Platform,
    PlatformError, ShellInvocation, WindowChange, WindowState,
};
use crate::registry::WindowRegistry;
use crate::text::ends_with;

verus! {

/// The platform a build targets, with the names of its architecture and
/// operating system.
#[derive(Debug, Clone, PartialEq, Eq)]
pub struct PlatformInfo {
    pub platform: Platform,
    pub arch: String,
    pub os: String,
}

/// Describes the platform from the names of the architecture and operating
/// system that the build targets.
pub fn get_platform(arch: &str, os: &str) -> (info: PlatformInfo)
    ensures
        info.platform == platform_of(os@),
        info.arch@ == arch@,
        info.os@ == os@,
{
    PlatformInfo { platform: current_platform(os), arch: arch.to_owned(), os: os.to_owned() }
}

/// A shell command to execute, such as `echo hello` or `ls -la`.
#[derive(Debug, Clone, PartialEq, Eq)]
pub struct SpawnInput {
    pub command: String,
}

impl SpawnInput {
    /// How the command runs through the command interpreter of `platform`.
    pub fn invocation(&self, platform: Platform) -> (plan: ShellInvocation)
        ensures
            plan.program@ == shell_program(platform),
            plan.flag@ == shell_flag(platform),
            plan.command@ == self.command@,
    {
        shell_invocation(platform, self.command.as_str())
    }
}

/// What a captured run gives back.
#[derive(Debug, Clone, PartialEq, Eq)]
pub struct RunOutput {
    pub status: i32,
    pub stdout: String,
    pub stderr: String,
}

/// Reports a detached spawn: success once the process was created, the
/// failure text otherwise.
pub fn spawn(launch: Result<(), String>) -> (r: Result<(), String>)
    ensures
        launch is Ok ==> r is Ok,
        launch matches Err(detail) ==> r matches Err(message) && message@ == error_text(
            ErrorView::Io(detail@),
        ),
{
    match spawn_shell(launch) {
        Ok(_) => Ok(()),
        Err(e) => Err(e.to_string()),
    }
}

/// Reports a captured run: exit status and both streams of a process that
/// ran to its end, the failure text otherwise.
pub fn run(launch: Result<CapturedOutput, String>) -> (r: Result<RunOutput, String>)
    ensures
        match launch {
            Ok(captured) => r matches Ok(output) && reports(
                (output.status, output.stdout, output.stderr),
                captured,
            ),
            Err(detail) => r matches Err(message) && message@ == error_text(
                ErrorView::Io(detail@),
            ),
        },
{
    match run_shell_capture(launch) {
        Ok((status, stdout, stderr)) => Ok(RunOutput { status, stdout, stderr }),
        Err(e) => Err(e.to_string()),
    }
}

/// A URL or a file path to open.
#[derive(Debug, Clone, PartialEq, Eq)]
pub struct OpenInput {
    pub target: String,
}

/// Reports the opening of a target with the system's default handler.
pub fn open_path_or_url(input: OpenInput, launch: Result<(), String>) -> (r: Result<(), String>)
    ensures
        launch is Ok ==> r is Ok,
        launch matches Err(detail) ==> r matches Err(message) && message@ == open_failure_text(
            input.target@,
            detail@,
        ),
{
    match open_system(input.target.as_str(), launch) {
        Ok(_) => Ok(()),
        Err(e) => Err(e.to_string()),
    }
}

/// The directories of an application.
#[derive(Debug, Clone, PartialEq, Eq)]
pub struct Paths {
    pub identifier: String,
    pub config_dir: String,
    pub data_dir: String,
}

/// Puts the directories of an application together from the two that were
/// resolved. A failure to resolve the configuration directory is reported
/// before one to resolve the data directory.
pub fn assemble_paths(
    identifier: String,
    config_dir: Result<String, PlatformError>,
    data_dir: Result<String, PlatformError>,
) -> (r: Result<Paths, String>)
    ensures
        match (config_dir, data_dir) {
            (Err(e), _) => r matches Err(message) && message@ == error_text(e@),
            (Ok(_), Err(e)) => r matches Err(message) && message@ == error_text(e@),
            (Ok(config), Ok(data)) => r matches Ok(paths) && paths.identifier@ == identifier@
                && paths.config_dir@ == config@ && paths.data_dir@ == data@,
        },
{
    match config_dir {
        Err(e) => Err(e.to_string()),
        Ok(config) => match data_dir {
            Err(e) => Err(e.to_string()),
            Ok(data) => Ok(Paths { identifier, config_dir: config, data_dir: data }),
        },
    }
}

/// Resolves the configuration and data directories of the application
/// `identifier`. Both end with the identifier; where the operating system
/// supplies no base directory, the failure says which one is missing.
pub fn get_paths(identifier: String) -> (r: Result<Paths, String>)
    ensures
        match r {
            Ok(paths) => paths.identifier@ == identifier@ && ends_with(
                paths.config_dir@,
                identifier@,
            ) && ends_with(paths.data_dir@, identifier@),
            Err(message) => message@ == no_config_dir_text() || message@ == no_data_dir_text(),
        },
{
    let config_dir = app_config_dir(identifier.as_str());
    let data_dir = app_data_dir(identifier.as_str());
    assemble_paths(identifier, config_dir, data_dir)
}

/// A request to switch one flag of a window. Without a label it is meant for
/// the primary window.
#[derive(Debug, Clone, PartialEq, Eq)]
pub struct WindowFlag {
    pub label: Option<String>,
    pub value: bool,
}

/// A request to give a window a size in physical pixels.
#[derive(Debug, Clone, PartialEq, Eq)]
pub struct WindowSize {
    pub label: Option<String>,
    pub width: u32,
    pub height: u32,
}

/// A request to move a window to a position in physical pixels.
#[derive(Debug, Clone, PartialEq, Eq)]
pub struct WindowPosition {
    pub label: Option<String>,
    pub x: i32,
    pub y: i32,
}

/// The label a request is meant for: its own, or that of the primary window,
/// `main`.
pub open spec fn target_label_of(label: Option<String>) -> Seq<char> {
    match label {
        Some(text) => text@,
        None => "main"@,
    }
}

/// The message for a label that no live window has.
pub open spec fn not_found_text(label: Seq<char>) -> Seq<char> {
    "window '"@ + label + "' not found"@
}

/// The live windows after a change was asked of the window `label` and the
/// toolkit answered with `outcome`. Without such a window nothing changes.
pub open spec fn registry_after(
    windows: Map<Seq<char>, WindowState>,
    label: Seq<char>,
    change: WindowChange,
    outcome: Result<(), Seq<char>>,
) -> Map<Seq<char>, WindowState> {
    if windows.contains_key(label) {
        windows.insert(label, window_after(windows[label], change, outcome))
    } else {
        windows
    }
}

/// What is answered to a change asked of the window `label`: the failure
/// that names the label if no such window is alive, else what the toolkit's
/// answer comes to.
pub open spec fn answer_after(
    windows: Map<Seq<char>, WindowState>,
    label: Seq<char>,
    change: WindowChange,
    outcome: Result<(), Seq<char>>,
) -> Result<(), Seq<char>> {
    if !windows.contains_key(label) {
        Err(not_found_text(label))
    } else {
        match report_after(change, outcome) {
            Ok(_) => Ok(()),
            Err(e) => Err(error_text(e)),
        }
    }
}

/// What an answer holds, as mathematical text.
pub open spec fn answer_text(answer: Result<(), String>) -> Result<(), Seq<char>> {
    match answer {
        Ok(_) => Ok(()),
        Err(message) => Err(message@),
    }
}

/// The label a request is meant for.
pub fn target_label(label: Option<String>) -> (target: String)
    ensures
        target@ == target_label_of(label),
{
    match label {
        Some(text) => text,
        None => "main".to_owned(),
    }
}

/// Looks up the window a request is meant for and gives back its label. Where
/// no such window is alive the failure names the label.
pub fn get_window(registry: &WindowRegistry, label: Option<String>) -> (r: Result<String, String>)
    requires
        registry.well_formed(),
    ensures
        match r {
            Ok(found) => found@ == target_label_of(label) && registry@.contains_key(found@),
            Err(message) => message@ == not_found_text(target_label_of(label))
                && !registry@.contains_key(target_label_of(label)),
        },
{
    let target = target_label(label);
    if registry.contains(target.as_str()) {
        Ok(target)
    } else {
        let mut message = "window '".to_owned();
        message.append(target.as_str());
        message.append("' not found");
        Err(message)
    }
}

/// Carries out one change on the window a request is meant for: looks the
/// window up, and only where it is alive records what the toolkit answered.
/// A missing window fails before anything is changed.
pub fn change_window(
    registry: &mut WindowRegistry,
    label: Option<String>,
    change: WindowChange,
    outcome: Result<(), String>,
) -> (r: Result<(), String>)
    requires
        old(registry).well_formed(),
    ensures
        final(registry).well_formed(),
        final(registry)@ == registry_after(
            old(registry)@,
            target_label_of(label),
            change,
            outcome_text(outcome),
        ),
        answer_text(r) == answer_after(
            old(registry)@,
            target_label_of(label),
            change,
            outcome_text(outcome),
        ),
{
    match get_window(registry, label) {
        Err(message) => Err(message),
        Ok(found) => {
            let mut state = registry.state_of(found.as_str()).unwrap();
            match apply_change(&mut state, change, outcome) {
                Ok(_) => {
                    registry.replace(found.as_str(), state);
                    Ok(())
                },
                Err(e) => {
                    assert(registry@ =~= registry@.insert(found@, state));
                    Err(e.to_string())
                },
            }
        },
    }
}

/// Keeps the requested window above the others, or lets it go.
pub fn window_set_always_on_top(
    registry: &mut WindowRegistry,
    payload: WindowFlag,
    outcome: Result<(), String>,
) -> (r: Result<(), String>)
    requires
        old(registry).well_formed(),
    ensures
        final(registry).well_formed(),
        final(registry)@ == registry_after(
            old(registry)@,
            target_label_of(payload.label),
            WindowChange::AlwaysOnTop(payload.value),
            outcome_text(outcome),
        ),
        answer_text(r) == answer_after(
            old(registry)@,
            target_label_of(payload.label),
            WindowChange::AlwaysOnTop(payload.value),
            outcome_text(outcome),
        ),
{
    change_window(registry, payload.label, WindowChange::AlwaysOnTop(payload.value), outcome)
}

/// Shows or hides the decorations of the requested window.
pub fn window_set_decorations(
    registry: &mut WindowRegistry,
    payload: WindowFlag,
    outcome: Result<(), String>,
) -> (r: Result<(), String>)
    requires
        old(registry).well_formed(),
    ensures
        final(registry).well_formed(),
        final(registry)@ == registry_after(
            old(registry)@,
            target_label_of(payload.label),
            WindowChange::Decorations(payload.value),
            outcome_text(outcome),
        ),
        answer_text(r) == answer_after(
            old(registry)@,
            target_label_of(payload.label),
            WindowChange::Decorations(payload.value),
            outcome_text(outcome),
        ),
{
    change_window(registry, payload.label, WindowChange::Decorations(payload.value), outcome)
}

/// Gives the requested window its drop shadow or takes it away.
pub fn window_set_shadow(
    registry: &mut WindowRegistry,
    payload: WindowFlag,
    outcome: Result<(), String>,
) -> (r: Result<(), String>)
    requires
        old(registry).well_formed(),
    ensures
        final(registry).well_formed(),
        final(registry)@ == registry_after(
            old(registry)@,
            target_label_of(payload.label),
            WindowChange::Shadow(payload.value),
            outcome_text(outcome),
        ),
        answer_text(r) == answer_after(
            old(registry)@,
            target_label_of(payload.label),
            WindowChange::Shadow(payload.value),
            outcome_text(outcome),
        ),
{
    change_window(registry, payload.label, WindowChange::Shadow(payload.value), outcome)
}

/// Gives the requested window a new size.
pub fn window_resize(
    registry: &mut WindowRegistry,
    payload: WindowSize,
    outcome: Result<(), String>,
) -> (r: Result<(), String>)
    requires
        old(registry).well_formed(),
    ensures
        final(registry).well_formed(),
        final(registry)@ == registry_after(
            old(registry)@,
            target_label_of(payload.label),
            WindowChange::Size { width: payload.width, height: payload.height },
            outcome_text(outcome),
        ),
        answer_text(r) == answer_after(
            old(registry)@,
            target_label_of(payload.label),
            WindowChange::Size { width: payload.width, height: payload.height },
            outcome_text(outcome),
        ),
{
    change_window(
        registry,
        payload.label,
        WindowChange::Size { width: payload.width, height: payload.height },
        outcome,
    )
}

/// Moves the requested window to a new position.
pub fn window_move(
    registry: &mut WindowRegistry,
    payload: WindowPosition,
    outcome: Result<(), String>,
) -> (r: Result<(), String>)
    requires
        old(registry).well_formed(),
    ensures
        final(registry).well_formed(),
        final(registry)@ == registry_after(
            old(registry)@,
            target_label_of(payload.label),
            WindowChange::Position { x: payload.x, y: payload.y },
            outcome_text(outcome),
        ),
        answer_text(r) == answer_after(
            old(registry)@,
            target_label_of(payload.label),
            WindowChange::Position { x: payload.x, y: payload.y },
            outcome_text(outcome),
        ),
{
    change_window(
        registry,
        payload.label,
        WindowChange::Position { x: payload.x, y: payload.y },
        outcome,
    )
}

} // verus!
