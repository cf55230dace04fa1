//! The window's behaviour as a state machine: what the primary button
//! shows and does in each mode, and how each message from the worker
//! changes the window.

use vstd::prelude::*;
use crate::config::{filled, Config};
use crate::python::PythonInfo;

verus! {

/// Messages from the worker thread to the window.
#[derive(Debug)]
pub enum WorkerMsg {
    Progress(String),
    InstallDone,
    Connected,
    Disconnected,
    Failed(String),
    ReportSaved(String),
    SetPython { exe: String, version: (u32, u32, u32) },
}

impl Clone for WorkerMsg {
    fn clone(&self) -> (r: Self)
        ensures
            r == *self,
    {
        match self {
            WorkerMsg::Progress(s) => WorkerMsg::Progress(s.clone()),
            WorkerMsg::InstallDone => WorkerMsg::InstallDone,
            WorkerMsg::Connected => WorkerMsg::Connected,
            WorkerMsg::Disconnected => WorkerMsg::Disconnected,
            WorkerMsg::Failed(s) => WorkerMsg::Failed(s.clone()),
            WorkerMsg::ReportSaved(s) => WorkerMsg::ReportSaved(s.clone()),
            WorkerMsg::SetPython { exe, version } => WorkerMsg::SetPython {
                exe: exe.clone(),
                version: *version,
            },
        }
    }
}

/// Commands from the window to the worker thread.
#[derive(Debug)]
pub enum GuiCmd {
    Install,
    Connect { credentials: Config },
    Disconnect,
    SaveReport,
}

impl Clone for GuiCmd {
    fn clone(&self) -> (r: Self)
        ensures
            r == *self,
    {
        match self {
            GuiCmd::Install => GuiCmd::Install,
            GuiCmd::Connect { credentials } => GuiCmd::Connect { credentials: credentials.clone() },
            GuiCmd::Disconnect => GuiCmd::Disconnect,
            GuiCmd::SaveReport => GuiCmd::SaveReport,
        }
    }
}

/// The user-visible lifecycle of the launcher, which drives the primary
/// button's label and whether it can be clicked.
#[derive(Debug, Clone, Copy, PartialEq, Eq)]
pub enum Mode {
    NeedsInstall,
    Installing,
    Ready,
    Connecting,
    Connected,
    Disconnecting,
}

/// The button's label in each mode.
pub open spec fn label_of(m: Mode) -> &'static str {
    match m {
        Mode::NeedsInstall => "Install",
        Mode::Installing => "Installing...",
        Mode::Ready => "Connect",
        Mode::Connecting => "Connecting...",
        Mode::Connected => "Disconnect",
        Mode::Disconnecting => "Disconnecting...",
    }
}

/// The modes in which nothing is under way, the only ones in which the
/// button can be clicked.
pub open spec fn is_idle(m: Mode) -> bool {
    m is NeedsInstall || m is Ready || m is Connected
}

impl Mode {
    /// The primary button's label.
    pub fn button_label(self) -> (r: &'static str)
        ensures
            r == label_of(self),
    {
        match self {
            Mode::NeedsInstall => "Install",
            Mode::Installing => "Installing...",
            Mode::Ready => "Connect",
            Mode::Connecting => "Connecting...",
            Mode::Connected => "Disconnect",
            Mode::Disconnecting => "Disconnecting...",
        }
    }

    /// Whether the primary button can be clicked.
    pub fn button_enabled(self) -> (r: bool)
        ensures
            r == is_idle(self),
    {
        match self {
            Mode::NeedsInstall | Mode::Ready | Mode::Connected => true,
            _ => false,
        }
    }
}

/// The mode the window starts in: `Ready` once the project is installed,
/// else `NeedsInstall`.
pub fn initial_mode(installed: bool) -> (r: Mode)
    ensures
        r == (if installed {
            Mode::Ready
        } else {
            Mode::NeedsInstall
        }),
{
    if installed {
        Mode::Ready
    } else {
        Mode::NeedsInstall
    }
}

/// What the window shows: the mode (and with it the primary button), the
/// status line, the progress bar's position, whether the Save Report button
/// shows, and the report saved in this session, if any.
pub struct Screen {
    pub mode: Mode,
    pub status: String,
    pub progress: u32,
    pub report_visible: bool,
    pub last_report: Option<String>,
}

/// What the window asks of its surroundings after a worker message.
#[derive(Debug)]
pub enum ScreenEffect {
    Nothing,
    StorePython(PythonInfo),
    OpenReport(String),
}

/// What a click on Save Report asks for: opening the report saved earlier,
/// or a new report from the worker.
#[derive(Debug)]
pub enum ReportClick {
    Reopen(String),
    Request(GuiCmd),
}

/// The mode after a click on the primary button; `complete` says whether
/// both credentials were filled in.
pub open spec fn mode_after_click(m: Mode, complete: bool) -> Mode {
    match m {
        Mode::NeedsInstall => Mode::Installing,
        Mode::Ready => if complete {
            Mode::Connecting
        } else {
            Mode::Ready
        },
        Mode::Connected => Mode::Disconnecting,
        _ => m,
    }
}

/// The mode after a message from the worker.
pub open spec fn mode_after_msg(m: Mode, msg: WorkerMsg) -> Mode {
    match msg {
        WorkerMsg::InstallDone => Mode::Ready,
        WorkerMsg::Connected => Mode::Connected,
        WorkerMsg::Disconnected => Mode::Ready,
        WorkerMsg::Failed(_) => if m is Installing {
            Mode::NeedsInstall
        } else {
            Mode::Ready
        },
        _ => m,
    }
}

/// The progress bar's position after a message from the worker: each
/// progress step moves it 5 further while it is below 95, and the end of an
/// operation puts it at 100 or back at 0.
pub open spec fn progress_after_msg(p: u32, msg: WorkerMsg) -> u32 {
    match msg {
        WorkerMsg::Progress(_) => if p < 95 {
            (p + 5) as u32
        } else {
            p
        },
        WorkerMsg::InstallDone => 100,
        WorkerMsg::Connected => 100,
        WorkerMsg::Disconnected => 0,
        WorkerMsg::Failed(_) => 0,
        _ => p,
    }
}

/// The status line after a message from the worker, where it changes.
pub open spec fn status_after_msg(old_status: Seq<char>, msg: WorkerMsg) -> Seq<char> {
    match msg {
        WorkerMsg::Progress(s) => "Status: "@ + s@,
        WorkerMsg::InstallDone => "Status: installation complete — enter credentials and click Connect"@,
        WorkerMsg::Connected => "Status: connected (proxy 127.0.0.1:8085)"@,
        WorkerMsg::Disconnected => "Status: disconnected"@,
        WorkerMsg::Failed(reason) => "Status: failed — "@ + reason@,
        WorkerMsg::ReportSaved(path) => "Status: report saved → "@ + path@,
        _ => old_status,
    }
}

/// The status line after a click on the primary button.
pub open spec fn status_after_click(m: Mode, complete: bool, old_status: Seq<char>) -> Seq<char> {
    match m {
        Mode::NeedsInstall => "Status: installing..."@,
        Mode::Ready => if complete {
            "Status: connecting..."@
        } else {
            "Status: please fill both Script ID and Auth Key before connecting"@
        },
        Mode::Connected => "Status: disconnecting..."@,
        _ => old_status,
    }
}

/// A `String` holding the text of `s`.
fn owned(s: &str) -> (r: String)
    ensures
        r@ == s@,
{
    String::from_str(s)
}

/// `prefix` followed by `rest`.
fn concat(prefix: &str, rest: &str) -> (r: String)
    ensures
        r@ == prefix@ + rest@,
{
    let mut out = String::from_str(prefix);
    out.append(rest);
    out
}

impl Screen {
    /// The window is well formed when the progress bar is within 0..=100.
    pub open spec fn wf(&self) -> bool {
        self.progress <= 100
    }

    /// The window as it opens: the mode from whether the project is
    /// installed, status idle, no progress, no report.
    pub fn new(installed: bool) -> (r: Screen)
        ensures
            r.wf(),
            r.mode == (if installed {
                Mode::Ready
            } else {
                Mode::NeedsInstall
            }),
            r.status@ == "Status: idle"@,
            r.progress == 0,
            !r.report_visible,
            r.last_report is None,
    {
        Screen {
            mode: initial_mode(installed),
            status: owned("Status: idle"),
            progress: 0,
            report_visible: false,
            last_report: None,
        }
    }

    /// A click on the primary button with the credentials as typed. It hides
    /// Save Report, moves to the matching in-flight mode and returns the
    /// command for the worker; in a mode that has something under way it
    /// does nothing else, and with incomplete credentials it only says so.
    pub fn on_action_click(&mut self, script_id: String, auth_key: String) -> (r: Option<GuiCmd>)
        requires
            old(self).wf(),
        ensures
            final(self).wf(),
            !final(self).report_visible,
            final(self).last_report == old(self).last_report,
            final(self).mode == mode_after_click(
                old(self).mode,
                filled(script_id@) && filled(auth_key@),
            ),
            final(self).status@ == status_after_click(
                old(self).mode,
                filled(script_id@) && filled(auth_key@),
                old(self).status@,
            ),
            final(self).progress == (if old(self).mode is NeedsInstall || (old(self).mode is Ready
                && filled(script_id@) && filled(auth_key@)) {
                0
            } else {
                old(self).progress
            }),
            match old(self).mode {
                Mode::NeedsInstall => r == Some(GuiCmd::Install),
                Mode::Ready => if filled(script_id@) && filled(auth_key@) {
                    r == Some(
                        GuiCmd::Connect { credentials: Config { script_id, auth_key } },
                    )
                } else {
                    r is None
                },
                Mode::Connected => r == Some(GuiCmd::Disconnect),
                _ => r is None,
            },
    {
        self.report_visible = false;
        match self.mode {
            Mode::NeedsInstall => {
                self.mode = Mode::Installing;
                self.status = owned("Status: installing...");
                self.progress = 0;
                Some(GuiCmd::Install)
            },
            Mode::Ready => {
                let cfg = Config { script_id, auth_key };
                if !cfg.is_complete() {
                    self.status = owned(
                        "Status: please fill both Script ID and Auth Key before connecting",
                    );
                    return None;
                }
                self.mode = Mode::Connecting;
                self.status = owned("Status: connecting...");
                self.progress = 0;
                Some(GuiCmd::Connect { credentials: cfg })
            },
            Mode::Connected => {
                self.mode = Mode::Disconnecting;
                self.status = owned("Status: disconnecting...");
                Some(GuiCmd::Disconnect)
            },
            _ => None,
        }
    }

    /// Applies one message from the worker to the window and says what the
    /// surroundings must do: keep the interpreter the worker found, or open
    /// the report it saved.
    pub fn on_worker_msg(&mut self, msg: WorkerMsg) -> (r: ScreenEffect)
        requires
            old(self).wf(),
        ensures
            final(self).wf(),
            final(self).mode == mode_after_msg(old(self).mode, msg),
            final(self).progress == progress_after_msg(old(self).progress, msg),
            final(self).status@ == status_after_msg(old(self).status@, msg),
            final(self).report_visible == (if msg is Failed {
                true
            } else {
                old(self).report_visible
            }),
            final(self).last_report == (match msg {
                WorkerMsg::Failed(_) => None,
                WorkerMsg::ReportSaved(path) => Some(path),
                _ => old(self).last_report,
            }),
            r == (match msg {
                WorkerMsg::SetPython { exe, version } => ScreenEffect::StorePython(
                    PythonInfo { exe, version },
                ),
                WorkerMsg::ReportSaved(path) => ScreenEffect::OpenReport(path),
                _ => ScreenEffect::Nothing,
            }),
    {
        match msg {
            WorkerMsg::Progress(s) => {
                self.status = concat("Status: ", s.as_str());
                if self.progress < 95 {
                    self.progress = self.progress + 5;
                }
                ScreenEffect::Nothing
            },
            WorkerMsg::SetPython { exe, version } => {
                ScreenEffect::StorePython(PythonInfo { exe, version })
            },
            WorkerMsg::InstallDone => {
                self.progress = 100;
                self.status = owned(
                    "Status: installation complete — enter credentials and click Connect",
                );
                self.mode = Mode::Ready;
                ScreenEffect::Nothing
            },
            WorkerMsg::Connected => {
                self.status = owned("Status: connected (proxy 127.0.0.1:8085)");
                self.progress = 100;
                self.mode = Mode::Connected;
                ScreenEffect::Nothing
            },
            WorkerMsg::Disconnected => {
                self.status = owned("Status: disconnected");
                self.progress = 0;
                self.mode = Mode::Ready;
                ScreenEffect::Nothing
            },
            WorkerMsg::Failed(reason) => {
                self.status = concat("Status: failed — ", reason.as_str());
                self.progress = 0;
                self.mode = match self.mode {
                    Mode::Installing => Mode::NeedsInstall,
                    _ => Mode::Ready,
                };
                self.last_report = None;
                self.report_visible = true;
                ScreenEffect::Nothing
            },
            WorkerMsg::ReportSaved(path) => {
                self.status = concat("Status: report saved → ", path.as_str());
                self.last_report = Some(path.clone());
                ScreenEffect::OpenReport(path)
            },
        }
    }

    /// The saved report at `path` could not be opened: the status line says
    /// where it is and why it did not open.
    pub fn report_open_failed(&mut self, path: &str, err: &str)
        requires
            old(self).wf(),
        ensures
            final(self).wf(),
            final(self).status@ == "Status: report saved at "@ + path@
                + " (could not auto-open: "@ + err@ + ")"@,
            final(self).mode == old(self).mode,
            final(self).progress == old(self).progress,
            final(self).report_visible == old(self).report_visible,
            final(self).last_report == old(self).last_report,
    {
        let mut out = String::from_str("Status: report saved at ");
        out.append(path);
        out.append(" (could not auto-open: ");
        out.append(err);
        out.append(")");
        self.status = out;
    }

    /// A click on Save Report: a report saved in this session is opened
    /// again, else the worker is asked for a new one.
    pub fn on_report_click(&self) -> (r: ReportClick)
        ensures
            r == (match self.last_report {
                Some(path) => ReportClick::Reopen(path),
                None => ReportClick::Request(GuiCmd::SaveReport),
            }),
    {
        match &self.last_report {
            Some(path) => ReportClick::Reopen(path.clone()),
            None => ReportClick::Request(GuiCmd::SaveReport),
        }
    }

    /// The report saved earlier could not be opened again: the status line
    /// says why.
    pub fn reopen_failed(&mut self, err: &str)
        requires
            old(self).wf(),
        ensures
            final(self).wf(),
            final(self).status@ == "Status: could not open report — "@ + err@,
            final(self).mode == old(self).mode,
            final(self).progress == old(self).progress,
            final(self).report_visible == old(self).report_visible,
            final(self).last_report == old(self).last_report,
    {
        self.status = concat("Status: could not open report — ", err);
    }
}

/// The credentials to show when the window opens: those of the per-user
/// store where it has some, else those of the project's `config.json`.
pub fn prefill_credentials(stored: Option<(String, String)>, config: Option<Config>) -> (r: Option<
    (String, String),
>)
    ensures
        r == (match stored {
            Some(pair) => Some(pair),
            None => match config {
                Some(c) => Some((c.script_id, c.auth_key)),
                None => None,
            },
        }),
{
    match stored {
        Some(pair) => Some(pair),
        None => match config {
            Some(c) => Some((c.script_id, c.auth_key)),
            None => None,
        },
    }
}

/// `lines` with `sep` between each two of them.
pub open spec fn joined(lines: Seq<String>, sep: Seq<char>) -> Seq<char>
    decreases lines.len(),
{
    if lines.len() == 0 {
        Seq::empty()
    } else if lines.len() == 1 {
        lines[0]@
    } else {
        joined(lines.drop_last(), sep) + sep + lines.last()@
    }
}

/// The log box's text: the log's lines joined with Windows line breaks.
pub fn log_box_text(lines: &Vec<String>) -> (r: String)
    ensures
        r@ == joined(lines@, "\r\n"@),
{
    let mut out = String::new();
    let mut i: usize = 0;
    while i < lines.len()
        invariant
            i <= lines@.len(),
            out@ == joined(lines@.subrange(0, i as int), "\r\n"@),
        decreases lines@.len() - i,
    {
        if i > 0 {
            out.append("\r\n");
        }
        out.append(lines[i].as_str());
        assert(lines@.subrange(0, i + 1).drop_last() =~= lines@.subrange(0, i as int));
        i = i + 1;
    }
    assert(lines@.subrange(0, i as int) =~= lines@);
    out
}

/// An operation's end (install done, connected, disconnected or failed)
/// always leaves the window in a mode whose button can be clicked.
pub proof fn lemma_outcome_leaves_idle(m: Mode, msg: WorkerMsg)
    requires
        msg is InstallDone || msg is Connected || msg is Disconnected || msg is Failed,
    ensures
        is_idle(mode_after_msg(m, msg)),
{
}

/// A click leaves an idle mode for one with the operation under way (or,
/// with incomplete credentials, stays at `Ready`), and a click while an
/// operation is under way changes nothing.
pub proof fn lemma_click_modes(m: Mode, complete: bool)
    ensures
        is_idle(m) && !(m is Ready && !complete) ==> !is_idle(mode_after_click(m, complete)),
        m is Ready && !complete ==> mode_after_click(m, complete) == Mode::Ready,
        !is_idle(m) ==> mode_after_click(m, complete) == m,
{
}

/// A failed install or connect returns the window to the mode the click
/// was made in.
pub proof fn lemma_failure_rolls_back(m: Mode, reason: String)
    requires
        m is NeedsInstall || m is Ready,
    ensures
        mode_after_msg(mode_after_click(m, true), WorkerMsg::Failed(reason)) == m,
{
}

/// The progress bar at the end of an operation: full once the install is
/// done or the connection is up, empty once it is down or something failed,
/// whatever it showed before. A progress step never moves it back, moves it
/// at most 5, keeps it within the bar, and never fills a bar that was not
/// already full.
pub proof fn lemma_progress_after_outcome(p: u32, msg: WorkerMsg)
    requires
        p <= 100,
    ensures
        msg is InstallDone || msg is Connected ==> progress_after_msg(p, msg) == 100,
        msg is Disconnected || msg is Failed ==> progress_after_msg(p, msg) == 0,
        msg is Progress ==> p <= progress_after_msg(p, msg) <= p + 5,
        msg is Progress ==> progress_after_msg(p, msg) <= 100,
        msg is Progress && p < 100 ==> progress_after_msg(p, msg) < 100,
        msg is SetPython || msg is ReportSaved ==> progress_after_msg(p, msg) == p,
{
}

/// Once connected, the window says so, its mode is `Connected`, and the bar
/// is full, from any mode and any earlier position.
pub proof fn lemma_connected_screen(m: Mode, p: u32, old_status: Seq<char>)
    ensures
        mode_after_msg(m, WorkerMsg::Connected) == Mode::Connected,
        progress_after_msg(p, WorkerMsg::Connected) == 100,
        status_after_msg(old_status, WorkerMsg::Connected) == "Status: connected (proxy 127.0.0.1:8085)"@,
{
}

} // verus!
