//! The commands that the launcher's window calls: opening paths, opening a
//! folder with a program, running a shell command, and switching the window.
use vstd::prelude::*;
use vstd::utf8::{decode_utf8, valid_utf8};

verus! {

/// The operating system the launcher runs on.
#[derive(PartialEq, Eq, Structural, Debug, Clone, Copy)]
pub enum Platform {
    Windows,
    MacOs,
    Other,
}

/// A program to start and its arguments.
pub struct LaunchCommand {
    pub program: String,
    pub args: Vec<String>,
    /// Start it detached from the launcher's console (Windows only).
    pub detached: bool,
}

pub open spec fn args_view(args: Seq<String>) -> Seq<Seq<char>> {
    args.map_values(|a: String| a@)
}

/// How a path is opened.
pub enum OpenPlan {
    /// Start this program.
    Spawn(LaunchCommand),
    /// Hand the path to the system's default opener.
    SystemOpener(String),
}

fn command_of(program: &str, args: Vec<String>, detached: bool) -> (c: LaunchCommand)
    ensures
        c.program@ == program@,
        c.args@ == args@,
        c.detached == detached,
{
    LaunchCommand { program: program.to_owned(), args, detached }
}

/// How `open_path` opens `path`. On Windows a folder goes to Explorer and
/// anything else to the file's associated program, both detached; elsewhere
/// the system's opener takes the path.
pub fn open_path_plan(path: &str, is_dir: bool, platform: Platform) -> (p: OpenPlan)
    ensures
        platform == Platform::Windows && is_dir ==> (p matches OpenPlan::Spawn(c) && c.program@
            == "explorer"@ && args_view(c.args@) == seq![path@] && c.detached),
        platform == Platform::Windows && !is_dir ==> (p matches OpenPlan::Spawn(c) && c.program@
            == "rundll32"@ && args_view(c.args@) == seq!["url.dll,FileProtocolHandler"@, path@]
            && c.detached),
        platform != Platform::Windows ==> (p matches OpenPlan::SystemOpener(s) && s@ == path@),
{
    if platform == Platform::Windows {
        if is_dir {
            let args = vec![path.to_owned()];
            assert(args_view(args@) =~= seq![path@]);
            OpenPlan::Spawn(command_of("explorer", args, true))
        } else {
            let args = vec!["url.dll,FileProtocolHandler".to_owned(), path.to_owned()];
            assert(args_view(args@) =~= seq!["url.dll,FileProtocolHandler"@, path@]);
            OpenPlan::Spawn(command_of("rundll32", args, true))
        }
    } else {
        OpenPlan::SystemOpener(path.to_owned())
    }
}

/// How `open_with` opens `folder_path` with the program `app_path`: through
/// `open -a` on macOS, elsewhere by starting the program detached with the
/// folder as its argument.
pub fn open_with_plan(folder_path: &str, app_path: &str, platform: Platform) -> (c: LaunchCommand)
    ensures
        platform == Platform::MacOs ==> c.program@ == "open"@ && args_view(c.args@) == seq![
            "-a"@,
            app_path@,
            folder_path@,
        ] && !c.detached,
        platform != Platform::MacOs ==> c.program@ == app_path@ && args_view(c.args@) == seq![
            folder_path@,
        ] && c.detached,
{
    if platform == Platform::MacOs {
        let args = vec!["-a".to_owned(), app_path.to_owned(), folder_path.to_owned()];
        assert(args_view(args@) =~= seq!["-a"@, app_path@, folder_path@]);
        command_of("open", args, false)
    } else {
        let args = vec![folder_path.to_owned()];
        assert(args_view(args@) =~= seq![folder_path@]);
        command_of(app_path, args, true)
    }
}

/// How `execute_command` runs `cmd`.
pub struct CommandPlan {
    pub command: LaunchCommand,
    /// Wait for the command and report its output; otherwise report that it
    /// runs in a window of its own.
    pub capture_output: bool,
}

/// How `execute_command` runs `cmd`: on Windows in a new console window that
/// closes by itself when the command ends, without waiting for it; elsewhere
/// through `sh -c`, waiting for its output.
pub fn execute_command_plan(cmd: &str, platform: Platform) -> (p: CommandPlan)
    ensures
        platform == Platform::Windows ==> p.command.program@ == "cmd"@ && args_view(
            p.command.args@,
        ) == seq!["/C"@, "start cmd /c "@ + cmd@] && !p.command.detached && !p.capture_output,
        platform != Platform::Windows ==> p.command.program@ == "sh"@ && args_view(
            p.command.args@,
        ) == seq!["-c"@, cmd@] && !p.command.detached && p.capture_output,
{
    if platform == Platform::Windows {
        let mut line = "start cmd /c ".to_owned();
        line.append(cmd);
        let args = vec!["/C".to_owned(), line];
        assert(args_view(args@) =~= seq!["/C"@, "start cmd /c "@ + cmd@]);
        CommandPlan { command: command_of("cmd", args, false), capture_output: false }
    } else {
        let args = vec!["-c".to_owned(), cmd.to_owned()];
        assert(args_view(args@) =~= seq!["-c"@, cmd@]);
        CommandPlan { command: command_of("sh", args, false), capture_output: true }
    }
}

/// The reply of `execute_command` when the command runs in a window of its own.
pub fn spawned_in_window_reply() -> (s: String)
    ensures
        s@ == "已在单独窗口中运行"@,
{
    "已在单独窗口中运行".to_owned()
}

/// The text that `String::from_utf8_lossy` makes of `bytes`.
pub uninterp spec fn lossy_utf8(bytes: Seq<u8>) -> Seq<char>;

/// Calls `String::from_utf8_lossy`. Trusted: the result is its decoding of
/// `bytes`, which for valid UTF-8 is the decoded text; how invalid sequences
/// are replaced is left to the name `lossy_utf8`.
#[verifier::external_body]
fn decode_lossy(bytes: &[u8]) -> (s: String)
    ensures
        s@ == lossy_utf8(bytes@),
        valid_utf8(bytes@) ==> s@ == decode_utf8(bytes@),
{
    String::from_utf8_lossy(bytes).into_owned()
}

/// The result of `execute_command` for a finished command: its standard
/// output on success, else its standard output and standard error on two
/// lines.
pub fn captured_outcome(success: bool, stdout: &[u8], stderr: &[u8]) -> (r: Result<String, String>)
    ensures
        success ==> (r matches Ok(s) && s@ == lossy_utf8(stdout@)),
        !success ==> (r matches Err(e) && e@ == lossy_utf8(stdout@) + "\n"@ + lossy_utf8(
            stderr@,
        )),
        valid_utf8(stdout@) && valid_utf8(stderr@) ==> match r {
            Ok(s) => s@ == decode_utf8(stdout@),
            Err(e) => e@ == decode_utf8(stdout@) + "\n"@ + decode_utf8(stderr@),
        },
{
    let out = decode_lossy(stdout);
    let err = decode_lossy(stderr);
    if success {
        Ok(out)
    } else {
        let mut message = out;
        message.append("\n");
        message.append(err.as_str());
        Err(message)
    }
}

/// The new always-on-top setting of the window when it is switched: the
/// opposite of the current one, taken as off when it cannot be read.
pub fn toggled_always_on_top(current: Option<bool>) -> (on: bool)
    ensures
        on == !(current == Some(true)),
{
    match current {
        Some(v) => !v,
        None => true,
    }
}

/// Where the Python backend lies and how it is started.
pub struct BackendLayout {
    /// The interpreter to run.
    pub program: &'static str,
    /// Directory of the backend, under the working directory in debug builds
    /// and under the bundled resources otherwise.
    pub dir: &'static str,
    /// The script, inside `dir`.
    pub script: &'static str,
    /// The models directory, inside `dir`.
    pub models: &'static str,
    /// Environment variable that gives the backend the models directory.
    pub models_env: &'static str,
    /// Start it without a console window (Windows only).
    pub hide_window: bool,
}

/// The Python backend: `python ai_server/server.py`, with `MODELS_DIR` set to
/// `ai_server/models`, started without a console window.
pub fn python_backend_layout() -> (l: BackendLayout)
    ensures
        l.program@ == "python"@,
        l.dir@ == "ai_server"@,
        l.script@ == "server.py"@,
        l.models@ == "models"@,
        l.models_env@ == "MODELS_DIR"@,
        l.hide_window,
{
    BackendLayout {
        program: "python",
        dir: "ai_server",
        script: "server.py",
        models: "models",
        models_env: "MODELS_DIR",
        hide_window: true,
    }
}

/// What the show/hide shortcut (`Ctrl+Shift+Space`) does to the window.
#[derive(PartialEq, Eq, Structural, Debug, Clone, Copy)]
pub enum WindowToggle {
    /// Drop always-on-top, then hide.
    Hide,
    /// Show, put on top, then focus.
    Show,
}

/// The window is hidden when it is known to be visible, shown otherwise.
pub fn main_window_toggle(visible: Option<bool>) -> (t: WindowToggle)
    ensures
        t == (if visible == Some(true) { WindowToggle::Hide } else { WindowToggle::Show }),
{
    match visible {
        Some(true) => WindowToggle::Hide,
        _ => WindowToggle::Show,
    }
}

} // verus!
