//! Platform detection, shell planning, directories and window properties.

use vstd::prelude::*;
use vstd::string::*;
use vstd::utf8::*;
use crate::text::{ends_with, last_char_is, lemma_concat_ends_with, same_text};

verus! {

/// The operating systems this layer distinguishes.
#[derive(Debug, Clone, Copy, PartialEq, Eq, Structural)]
pub enum Platform {
    Windows,
    Linux,
    MacOs,
    Unknown,
}

/// The platform that a target operating-system name stands for.
pub open spec fn platform_of(os: Seq<char>) -> Platform {
    if os == "windows"@ {
        Platform::Windows
    } else if os == "linux"@ {
        Platform::Linux
    } else if os == "macos"@ {
        Platform::MacOs
    } else {
        Platform::Unknown
    }
}

/// Resolves the name of the operating system a build targets into a
/// [`Platform`]. Names outside the closed set give `Unknown`.
pub fn current_platform(os: &str) -> (p: Platform)
    ensures
        p == platform_of(os@),
{
    if same_text(os, "windows") {
        Platform::Windows
    } else if same_text(os, "linux") {
        Platform::Linux
    } else if same_text(os, "macos") {
        Platform::MacOs
    } else {
        Platform::Unknown
    }
}

/// What a [`PlatformError`] holds, as mathematical text.
pub enum ErrorView {
    Msg(Seq<char>),
    Io(Seq<char>),
}

/// A failure of this layer. `Msg` carries a finished message; `Io` carries
/// what the operating system said when a process could not be started or
/// talked to.
#[derive(Debug, Clone, PartialEq, Eq)]
pub enum PlatformError {
    Msg(String),
    Io(String),
}

impl View for PlatformError {
    type V = ErrorView;

    open spec fn view(&self) -> ErrorView {
        match self {
            PlatformError::Msg(message) => ErrorView::Msg(message@),
            PlatformError::Io(detail) => ErrorView::Io(detail@),
        }
    }
}

/// The text a failure is shown as: a message as it is, an I/O failure after
/// the words `IO error: `.
pub open spec fn error_text(error: ErrorView) -> Seq<char> {
    match error {
        ErrorView::Msg(message) => message,
        ErrorView::Io(detail) => "IO error: "@ + detail,
    }
}

impl PlatformError {
    /// The failure as text for display.
    pub fn to_string(&self) -> (text: String)
        ensures
            text@ == error_text(self@),
    {
        match self {
            PlatformError::Msg(message) => message.clone(),
            PlatformError::Io(detail) => {
                let mut text = "IO error: ".to_owned();
                text.append(detail.as_str());
                text
            },
        }
    }
}

/// How a command line is handed to the command interpreter: the program to
/// start, the flag that makes it read a command, and the command itself.
#[derive(Debug, Clone, PartialEq, Eq)]
pub struct ShellInvocation {
    pub program: String,
    pub flag: String,
    pub command: String,
}

/// The interpreter of a platform: `cmd` on Windows, `sh` everywhere else.
pub open spec fn shell_program(platform: Platform) -> Seq<char> {
    if platform == Platform::Windows {
        "cmd"@
    } else {
        "sh"@
    }
}

/// The flag after which the interpreter of a platform takes a command.
pub open spec fn shell_flag(platform: Platform) -> Seq<char> {
    if platform == Platform::Windows {
        "/C"@
    } else {
        "-c"@
    }
}

/// Plans how `command` runs through the command interpreter of `platform`.
/// The command is passed on as received.
pub fn shell_invocation(platform: Platform, command: &str) -> (plan: ShellInvocation)
    ensures
        plan.program@ == shell_program(platform),
        plan.flag@ == shell_flag(platform),
        plan.command@ == command@,
{
    match platform {
        Platform::Windows => ShellInvocation {
            program: "cmd".to_owned(),
            flag: "/C".to_owned(),
            command: command.to_owned(),
        },
        _ => ShellInvocation {
            program: "sh".to_owned(),
            flag: "-c".to_owned(),
            command: command.to_owned(),
        },
    }
}

/// Concludes a detached spawn from what the operating system answered when
/// asked to create the process: created is success, and nothing later is
/// waited for; a refusal is an I/O failure that carries the system's words.
pub fn spawn_shell(launch: Result<(), String>) -> (r: Result<(), PlatformError>)
    ensures
        launch is Ok ==> r is Ok,
        launch matches Err(detail) ==> r matches Err(e) && e@ == ErrorView::Io(detail@),
{
    match launch {
        Ok(_) => Ok(()),
        Err(detail) => Err(PlatformError::Io(detail)),
    }
}

/// What a finished child process left behind: its exit code, if the operating
/// system reported one, and the bytes it wrote to its two output streams.
#[derive(Debug, Clone, PartialEq, Eq)]
pub struct CapturedOutput {
    pub code: Option<i32>,
    pub stdout: Vec<u8>,
    pub stderr: Vec<u8>,
}

/// The exit code reported for a process: its own code, or -1 where the
/// operating system reported none.
pub open spec fn exit_code_of(code: Option<i32>) -> i32 {
    match code {
        Some(c) => c,
        None => -1i32,
    }
}

/// The text that lossy UTF-8 decoding makes of a byte sequence.
pub uninterp spec fn lossy_text(bytes: Seq<u8>) -> Seq<char>;

/// `String::from_utf8_lossy`, as an owned string. The result is a function of
/// the bytes alone; well-formed UTF-8 decodes to the text it encodes, and
/// every ill-formed part is replaced rather than refused.
#[verifier::external_body]
fn decode_lossy(bytes: &Vec<u8>) -> (text: String)
    ensures
        text@ == lossy_text(bytes@),
        valid_utf8(bytes@) ==> text@ == decode_utf8(bytes@),
{
    String::from_utf8_lossy(bytes).into_owned()
}

/// Puts together the result of a captured run from the reported exit code and
/// the two decoded streams.
pub fn process_result(code: Option<i32>, stdout: String, stderr: String) -> (r: (
    i32,
    String,
    String,
))
    ensures
        r.0 == exit_code_of(code),
        r.1@ == stdout@,
        r.2@ == stderr@,
{
    let status: i32 = match code {
        Some(c) => c,
        None => -1,
    };
    (status, stdout, stderr)
}

/// `result` is what a captured run reports of `output`: the exit code, or -1
/// where none was reported, and each stream decoded lossily, which for
/// well-formed UTF-8 is the text that the bytes encode.
pub open spec fn reports(result: (i32, String, String), output: CapturedOutput) -> bool {
    &&& result.0 == exit_code_of(output.code)
    &&& result.1@ == lossy_text(output.stdout@)
    &&& result.2@ == lossy_text(output.stderr@)
    &&& valid_utf8(output.stdout@) ==> result.1@ == decode_utf8(output.stdout@)
    &&& valid_utf8(output.stderr@) ==> result.2@ == decode_utf8(output.stderr@)
}

/// Concludes a captured run from what the operating system answered: a
/// process that ran to its end gives its exit code (-1 if none was reported)
/// and both streams decoded lossily; a process that could not be started, or
/// whose output could not be read, gives an I/O failure and never a result.
pub fn run_shell_capture(launch: Result<CapturedOutput, String>) -> (r: Result<
    (i32, String, String),
    PlatformError,
>)
    ensures
        match launch {
            Ok(output) => r matches Ok(result) && reports(result, output),
            Err(detail) => r matches Err(e) && e@ == ErrorView::Io(detail@),
        },
{
    match launch {
        Ok(output) => {
            let stdout = decode_lossy(&output.stdout);
            let stderr = decode_lossy(&output.stderr);
            Ok(process_result(output.code, stdout, stderr))
        },
        Err(detail) => Err(PlatformError::Io(detail)),
    }
}

/// The message for a target that the system handler could not open.
pub open spec fn open_failure_text(target: Seq<char>, detail: Seq<char>) -> Seq<char> {
    "Failed to open '"@ + target + "': "@ + detail
}

/// Concludes the opening of a URL or path from what the system's
/// default-handler facility answered: a refusal becomes a message that names
/// the target and repeats the facility's words.
pub fn open_system(url_or_path: &str, launch: Result<(), String>) -> (r: Result<
    (),
    PlatformError,
>)
    ensures
        launch is Ok ==> r is Ok,
        launch matches Err(detail) ==> r matches Err(e) && e@ == ErrorView::Msg(
            open_failure_text(url_or_path@, detail@),
        ),
{
    match launch {
        Ok(_) => Ok(()),
        Err(detail) => {
            let mut message = "Failed to open '".to_owned();
            message.append(url_or_path);
            message.append("': ");
            message.append(detail.as_str());
            Err(PlatformError::Msg(message))
        },
    }
}

/// A base directory with `segment` appended as one more path segment: the
/// separator stands between the two unless the base is empty or already ends
/// with it.
pub open spec fn joined(base: Seq<char>, separator: char, segment: Seq<char>) -> Seq<char> {
    if base.len() == 0 || base.last() == separator {
        base + segment
    } else {
        base.push(separator) + segment
    }
}

/// Appends `segment` to `base` as one more path segment.
pub fn join_segment(base: &str, separator: char, segment: &str) -> (path: String)
    ensures
        path@ == joined(base@, separator, segment@),
        ends_with(path@, segment@),
{
    let mut path = base.to_owned();
    if base.unicode_len() > 0 && !last_char_is(base, separator) {
        path.push(separator);
    }
    path.append(segment);
    proof {
        if base@.len() == 0 || base@.last() == separator {
            lemma_concat_ends_with(base@, segment@);
        } else {
            lemma_concat_ends_with(base@.push(separator), segment@);
        }
    }
    path
}

/// The message for a missing configuration base directory.
pub open spec fn no_config_dir_text() -> Seq<char> {
    "Could not resolve config directory"@
}

/// The message for a missing data base directory.
pub open spec fn no_data_dir_text() -> Seq<char> {
    "Could not resolve data directory"@
}

/// Computes the directory of the application `identifier` below `base`.
/// Nothing is created or looked up: this is path computation only. Without a
/// base the result is the failure `missing`.
pub fn resolve_app_dir(base: Option<String>, separator: char, identifier: &str, missing: &str) -> (r:
    Result<String, PlatformError>)
    ensures
        match base {
            Some(dir) => r matches Ok(path) && path@ == joined(dir@, separator, identifier@),
            None => r matches Err(e) && e@ == ErrorView::Msg(missing@),
        },
        r matches Ok(path) ==> ends_with(path@, identifier@),
{
    match base {
        Some(dir) => Ok(join_segment(dir.as_str(), separator, identifier)),
        None => Err(PlatformError::Msg(missing.to_owned())),
    }
}

/// `dirs::config_dir`, shown as text as a path displays itself. The answer
/// depends on the user's environment, so nothing is claimed of it.
#[verifier::external_body]
fn config_base() -> Option<String> {
    match dirs::config_dir() {
        Some(path) => Some(path.display().to_string()),
        None => None,
    }
}

/// `dirs::data_dir`, shown as text as a path displays itself. The answer
/// depends on the user's environment, so nothing is claimed of it.
#[verifier::external_body]
fn data_base() -> Option<String> {
    match dirs::data_dir() {
        Some(path) => Some(path.display().to_string()),
        None => None,
    }
}

/// `std::path::MAIN_SEPARATOR`, the character that separates path segments
/// on the platform the build targets. Which character that is depends on the
/// target, so nothing is claimed of it.
#[verifier::external_body]
fn path_separator() -> char {
    std::path::MAIN_SEPARATOR
}

/// The per-application configuration directory: the user's configuration
/// base directory with `identifier` appended as one path segment. Fails when
/// the operating system supplies no base directory.
pub fn app_config_dir(identifier: &str) -> (r: Result<String, PlatformError>)
    ensures
        r matches Ok(path) ==> ends_with(path@, identifier@),
        r matches Err(e) ==> e@ == ErrorView::Msg(no_config_dir_text()),
{
    resolve_app_dir(
        config_base(),
        path_separator(),
        identifier,
        "Could not resolve config directory",
    )
}

/// The per-application data directory: the user's data base directory with
/// `identifier` appended as one path segment. Fails when the operating
/// system supplies no base directory.
pub fn app_data_dir(identifier: &str) -> (r: Result<String, PlatformError>)
    ensures
        r matches Ok(path) ==> ends_with(path@, identifier@),
        r matches Err(e) ==> e@ == ErrorView::Msg(no_data_dir_text()),
{
    resolve_app_dir(data_base(), path_separator(), identifier, "Could not resolve data directory")
}

/// The presentation properties of one window: three flags, the size and the
/// position, both in physical pixels.
#[derive(Debug, Clone, Copy, PartialEq, Eq, Structural)]
pub struct WindowState {
    pub always_on_top: bool,
    pub decorations: bool,
    pub shadow: bool,
    pub width: u32,
    pub height: u32,
    pub x: i32,
    pub y: i32,
}

/// One requested change of a presentation property.
#[derive(Debug, Clone, Copy, PartialEq, Eq, Structural)]
pub enum WindowChange {
    AlwaysOnTop(bool),
    Decorations(bool),
    Shadow(bool),
    Size { width: u32, height: u32 },
    Position { x: i32, y: i32 },
}

/// A window's properties once a change has taken effect: the property that
/// the change names has the requested value, every other one is as before.
pub open spec fn changed(state: WindowState, change: WindowChange) -> WindowState {
    match change {
        WindowChange::AlwaysOnTop(enabled) => WindowState { always_on_top: enabled, ..state },
        WindowChange::Decorations(enabled) => WindowState { decorations: enabled, ..state },
        WindowChange::Shadow(enabled) => WindowState { shadow: enabled, ..state },
        WindowChange::Size { width, height } => WindowState { width, height, ..state },
        WindowChange::Position { x, y } => WindowState { x, y, ..state },
    }
}

/// The name under which a change is reported when the toolkit rejects it.
pub open spec fn operation_name(change: WindowChange) -> Seq<char> {
    match change {
        WindowChange::AlwaysOnTop(_) => "set_always_on_top"@,
        WindowChange::Decorations(_) => "set_decorations"@,
        WindowChange::Shadow(_) => "set_shadow"@,
        WindowChange::Size { .. } => "resize"@,
        WindowChange::Position { .. } => "move"@,
    }
}

/// The message for a change that the toolkit rejected.
pub open spec fn toolkit_failure_text(change: WindowChange, detail: Seq<char>) -> Seq<char> {
    operation_name(change) + " failed: "@ + detail
}

/// The toolkit's answer to a change, as mathematical text.
pub open spec fn outcome_text(outcome: Result<(), String>) -> Result<(), Seq<char>> {
    match outcome {
        Ok(_) => Ok(()),
        Err(detail) => Err(detail@),
    }
}

/// A window's properties after a change that the toolkit answered with
/// `outcome`: changed if it was accepted, untouched if it was rejected.
pub open spec fn window_after(
    state: WindowState,
    change: WindowChange,
    outcome: Result<(), Seq<char>>,
) -> WindowState {
    if outcome is Ok {
        changed(state, change)
    } else {
        state
    }
}

/// What is reported of a change that the toolkit answered with `outcome`.
pub open spec fn report_after(change: WindowChange, outcome: Result<(), Seq<char>>) -> Result<
    (),
    ErrorView,
> {
    match outcome {
        Ok(_) => Ok(()),
        Err(detail) => Err(ErrorView::Msg(toolkit_failure_text(change, detail))),
    }
}

/// What a result of this layer holds, as mathematical text.
pub open spec fn result_view(r: Result<(), PlatformError>) -> Result<(), ErrorView> {
    match r {
        Ok(_) => Ok(()),
        Err(e) => Err(e@),
    }
}

/// Records the toolkit's answer to one change of a window's properties. An
/// accepted change takes effect on `window`; a rejected one leaves it as it
/// was and is reported under the operation's name, with the toolkit's words.
pub fn apply_change(window: &mut WindowState, change: WindowChange, outcome: Result<(), String>) -> (r:
    Result<(), PlatformError>)
    ensures
        *final(window) == window_after(*old(window), change, outcome_text(outcome)),
        result_view(r) == report_after(change, outcome_text(outcome)),
{
    match outcome {
        Ok(_) => {
            match change {
                WindowChange::AlwaysOnTop(enabled) => {
                    window.always_on_top = enabled;
                },
                WindowChange::Decorations(enabled) => {
                    window.decorations = enabled;
                },
                WindowChange::Shadow(enabled) => {
                    window.shadow = enabled;
                },
                WindowChange::Size { width, height } => {
                    window.width = width;
                    window.height = height;
                },
                WindowChange::Position { x, y } => {
                    window.x = x;
                    window.y = y;
                },
            }
            Ok(())
        },
        Err(detail) => {
            let mut message = match change {
                WindowChange::AlwaysOnTop(_) => "set_always_on_top".to_owned(),
                WindowChange::Decorations(_) => "set_decorations".to_owned(),
                WindowChange::Shadow(_) => "set_shadow".to_owned(),
                WindowChange::Size { .. } => "resize".to_owned(),
                WindowChange::Position { .. } => "move".to_owned(),
            };
            message.append(" failed: ");
            message.append(detail.as_str());
            Err(PlatformError::Msg(message))
        },
    }
}

/// Keeps a window above the others, or lets it go, as the toolkit answered.
pub fn set_always_on_top(window: &mut WindowState, enabled: bool, outcome: Result<(), String>) -> (r:
    Result<(), PlatformError>)
    ensures
        *final(window) == window_after(
            *old(window),
            WindowChange::AlwaysOnTop(enabled),
            outcome_text(outcome),
        ),
        result_view(r) == report_after(WindowChange::AlwaysOnTop(enabled), outcome_text(outcome)),
{
    apply_change(window, WindowChange::AlwaysOnTop(enabled), outcome)
}

/// Shows or hides a window's decorations, as the toolkit answered.
pub fn set_decorations(window: &mut WindowState, enabled: bool, outcome: Result<(), String>) -> (r:
    Result<(), PlatformError>)
    ensures
        *final(window) == window_after(
            *old(window),
            WindowChange::Decorations(enabled),
            outcome_text(outcome),
        ),
        result_view(r) == report_after(WindowChange::Decorations(enabled), outcome_text(outcome)),
{
    apply_change(window, WindowChange::Decorations(enabled), outcome)
}

/// Gives a window its drop shadow or takes it away, as the toolkit answered.
pub fn set_shadow(window: &mut WindowState, enabled: bool, outcome: Result<(), String>) -> (r:
    Result<(), PlatformError>)
    ensures
        *final(window) == window_after(
            *old(window),
            WindowChange::Shadow(enabled),
            outcome_text(outcome),
        ),
        result_view(r) == report_after(WindowChange::Shadow(enabled), outcome_text(outcome)),
{
    apply_change(window, WindowChange::Shadow(enabled), outcome)
}

/// Gives a window a new size in physical pixels, as the toolkit answered.
pub fn resize(window: &mut WindowState, width: u32, height: u32, outcome: Result<(), String>) -> (r:
    Result<(), PlatformError>)
    ensures
        *final(window) == window_after(
            *old(window),
            WindowChange::Size { width, height },
            outcome_text(outcome),
        ),
        result_view(r) == report_after(WindowChange::Size { width, height }, outcome_text(outcome)),
{
    apply_change(window, WindowChange::Size { width, height }, outcome)
}

/// Moves a window to a new position in physical pixels, as the toolkit
/// answered.
pub fn move_window(window: &mut WindowState, x: i32, y: i32, outcome: Result<(), String>) -> (r:
    Result<(), PlatformError>)
    ensures
        *final(window) == window_after(
            *old(window),
            WindowChange::Position { x, y },
            outcome_text(outcome),
        ),
        result_view(r) == report_after(WindowChange::Position { x, y }, outcome_text(outcome)),
{
    apply_change(window, WindowChange::Position { x, y }, outcome)
}

} // verus!
