//! The worker's decisions while it installs the project or connects the VPN.
//!
//! Each job is a sequence of steps whose work (detecting Python, downloading,
//! running pip, spawning the VPN process, touching the registry) is done by
//! the caller; `advance` takes the outcome of a step and says which step
//! comes next, what to tell the window and what to write to the log.

use vstd::prelude::*;
use crate::gui::WorkerMsg;
use crate::python::{version_text, PythonInfo};
use crate::text::{decimal, push_decimal};

verus! {

/// The two jobs that run as a sequence of steps.
#[derive(Debug, Clone, Copy, PartialEq, Eq)]
pub enum Job {
    Install,
    Connect,
}

/// The steps of a job.
#[derive(Debug, Clone, Copy, PartialEq, Eq)]
pub enum Step {
    LookUpPython,
    DetectPython,
    InstallPython,
    CheckInstalled,
    DownloadProject,
    PipInstall,
    MarkInstalled,
    SaveConfig,
    SaveCredentials,
    SpawnRunner,
    CheckCert,
    InstallCert,
    MarkCert,
    EnableProxy,
    HealthCheck,
}

/// How a step went: it finished, it answered a yes-or-no question, it
/// looked for an interpreter (and found this one or none), or it failed with
/// the given message.
#[derive(Debug)]
pub enum Outcome {
    Done,
    Flag(bool),
    Python(Option<PythonInfo>),
    Failed(String),
}

/// What to do after a step: the next step (none when the job is over), the
/// messages for the window in order, a warning for the log, whether the
/// system proxy is now set, and the interpreter the job now uses (which is
/// also the one to remember for later jobs).
#[derive(Debug)]
pub struct Transition {
    pub next: Option<Step>,
    pub messages: Vec<WorkerMsg>,
    pub warning: Option<String>,
    pub proxy_enabled: bool,
    pub python: Option<PythonInfo>,
}

/// A message for the window, as text.
pub enum Note {
    Progress(Seq<char>),
    InstallDone,
    Connected,
    Disconnected,
    Failed(Seq<char>),
    ReportSaved(Seq<char>),
    SetPython(Seq<char>, (u32, u32, u32)),
}

/// The text form of a message.
pub open spec fn note_of(m: WorkerMsg) -> Note {
    match m {
        WorkerMsg::Progress(s) => Note::Progress(s@),
        WorkerMsg::InstallDone => Note::InstallDone,
        WorkerMsg::Connected => Note::Connected,
        WorkerMsg::Disconnected => Note::Disconnected,
        WorkerMsg::Failed(s) => Note::Failed(s@),
        WorkerMsg::ReportSaved(s) => Note::ReportSaved(s@),
        WorkerMsg::SetPython { exe, version } => Note::SetPython(exe@, version),
    }
}

/// The step a job starts with.
pub open spec fn first_step(job: Job) -> Step {
    Step::LookUpPython
}

/// The interpreter an outcome found, if any.
pub open spec fn found(outcome: Outcome) -> Option<PythonInfo> {
    match outcome {
        Outcome::Python(Some(p)) => Some(p),
        _ => None,
    }
}

/// Whether a step is one whose failure ends the job.
pub open spec fn failure_ends_job(step: Step) -> bool {
    !(step is SaveCredentials || step is InstallCert || step is MarkCert)
}

/// Whether the job ends in failure after `step` went as `outcome`: the step
/// failed and its failure ends the job, or installing Python gave no
/// interpreter.
pub open spec fn ends_in_failure(step: Step, outcome: Outcome) -> bool {
    (outcome is Failed && failure_ends_job(step)) || (step is InstallPython && found(outcome) is None)
}

/// The text of a failed outcome; empty for any other.
pub open spec fn failure_text(outcome: Outcome) -> Seq<char> {
    match outcome {
        Outcome::Failed(e) => e@,
        _ => Seq::empty(),
    }
}

/// The step after `step` went as `outcome`; none when the job is over.
pub open spec fn step_after(job: Job, step: Step, outcome: Outcome) -> Option<Step> {
    if ends_in_failure(step, outcome) {
        None
    } else {
        match step {
            Step::LookUpPython => if found(outcome) is Some {
                Some(Step::CheckInstalled)
            } else {
                Some(Step::DetectPython)
            },
            Step::DetectPython => if found(outcome) is Some {
                Some(Step::CheckInstalled)
            } else {
                Some(Step::InstallPython)
            },
            Step::InstallPython => Some(Step::CheckInstalled),
            Step::CheckInstalled => if outcome matches Outcome::Flag(true) {
                match job {
                    Job::Install => None,
                    Job::Connect => Some(Step::SaveConfig),
                }
            } else {
                Some(Step::DownloadProject)
            },
            Step::DownloadProject => Some(Step::PipInstall),
            Step::PipInstall => Some(Step::MarkInstalled),
            Step::MarkInstalled => match job {
                Job::Install => None,
                Job::Connect => Some(Step::SaveConfig),
            },
            Step::SaveConfig => Some(Step::SaveCredentials),
            Step::SaveCredentials => Some(Step::SpawnRunner),
            Step::SpawnRunner => Some(Step::CheckCert),
            Step::CheckCert => if outcome matches Outcome::Flag(true) {
                Some(Step::EnableProxy)
            } else {
                Some(Step::InstallCert)
            },
            Step::InstallCert => if outcome is Failed {
                Some(Step::EnableProxy)
            } else {
                Some(Step::MarkCert)
            },
            Step::MarkCert => Some(Step::EnableProxy),
            Step::EnableProxy => Some(Step::HealthCheck),
            Step::HealthCheck => None,
        }
    }
}

/// The messages that announce a newly found interpreter: its version is
/// ready, and which one it is.
pub open spec fn python_ready_notes(p: PythonInfo) -> Seq<Note> {
    seq![
        Note::Progress("Python "@ + version_text(p.version) + " ready"@),
        Note::SetPython(p.exe@, p.version),
    ]
}

/// The messages for the window after `step` went as `outcome`.
pub open spec fn notes_after(job: Job, step: Step, outcome: Outcome) -> Seq<Note> {
    if ends_in_failure(step, outcome) {
        seq![Note::Failed(failure_text(outcome))]
    } else {
        match step {
            Step::DetectPython => match found(outcome) {
                Some(p) => python_ready_notes(p),
                None => seq![Note::Progress("Installing Python 3.11..."@)],
            },
            Step::InstallPython => match found(outcome) {
                Some(p) => python_ready_notes(p),
                None => Seq::empty(),
            },
            Step::CheckInstalled => if outcome matches Outcome::Flag(true) {
                match job {
                    Job::Install => seq![
                        Note::Progress("Project already installed"@),
                        Note::InstallDone,
                    ],
                    Job::Connect => Seq::empty(),
                }
            } else {
                Seq::empty()
            },
            Step::MarkInstalled => match job {
                Job::Install => seq![Note::InstallDone],
                Job::Connect => Seq::empty(),
            },
            Step::SaveCredentials => seq![Note::Progress("Starting VPN process..."@)],
            Step::CheckCert => if outcome matches Outcome::Flag(true) {
                Seq::empty()
            } else {
                seq![Note::Progress("Installing certificate..."@)]
            },
            Step::HealthCheck => seq![Note::Connected],
            _ => Seq::empty(),
        }
    }
}

/// The interpreter the job uses from now on: the one a Python step found.
pub open spec fn python_after(step: Step, outcome: Outcome) -> Option<PythonInfo> {
    if step is LookUpPython || step is DetectPython || step is InstallPython {
        found(outcome)
    } else {
        None
    }
}

/// The log line `[launcher] <what> warning: <err>`.
pub open spec fn warning_text(what: Seq<char>, err: Seq<char>) -> Seq<char> {
    "[launcher] "@ + what + " warning: "@ + err
}

/// The warning for the log after `step` went as `outcome`: failures that do
/// not end the job are logged.
pub open spec fn warning_after(step: Step, outcome: Outcome) -> Option<Seq<char>> {
    match outcome {
        Outcome::Failed(e) => match step {
            Step::SaveCredentials => Some(warning_text("credentials persistence"@, e@)),
            Step::InstallCert => Some(warning_text("cert install"@, e@)),
            Step::MarkCert => Some(warning_text("cert marker write"@, e@)),
            _ => None,
        },
        _ => None,
    }
}

fn warning(what: &str, err: &str) -> (r: String)
    ensures
        r@ == warning_text(what@, err@),
{
    let mut out = String::from_str("[launcher] ");
    out.append(what);
    out.append(" warning: ");
    out.append(err);
    out
}

fn progress(text: &str) -> (r: WorkerMsg)
    ensures
        note_of(r) == Note::Progress(text@),
{
    WorkerMsg::Progress(String::from_str(text))
}

fn push_python_ready(messages: &mut Vec<WorkerMsg>, p: &PythonInfo)
    ensures
        final(messages)@.map_values(|m: WorkerMsg| note_of(m)) == old(messages)@.map_values(
            |m: WorkerMsg| note_of(m),
        ) + python_ready_notes(*p),
{
    let ghost before = messages@;
    messages.push(WorkerMsg::Progress(python_ready_message(p)));
    messages.push(WorkerMsg::SetPython { exe: p.exe.clone(), version: p.version });
    assert(messages@.map_values(|m: WorkerMsg| note_of(m)) =~= before.map_values(
        |m: WorkerMsg| note_of(m),
    ) + python_ready_notes(*p));
}

/// Decides what follows a step of `job` that went as `outcome`.
pub fn advance(job: Job, step: Step, outcome: Outcome) -> (r: Transition)
    ensures
        r.next == step_after(job, step, outcome),
        r.messages@.map_values(|m: WorkerMsg| note_of(m)) == notes_after(job, step, outcome),
        match r.warning {
            Some(w) => warning_after(step, outcome) == Some(w@),
            None => warning_after(step, outcome) is None,
        },
        r.proxy_enabled == (step is EnableProxy && !(outcome is Failed)),
        r.python == python_after(step, outcome),
{
    let mut messages: Vec<WorkerMsg> = Vec::new();
    let ghost o = outcome;
    let python_step = matches!(step, Step::LookUpPython | Step::DetectPython | Step::InstallPython);
    let found_python: Option<PythonInfo> = match &outcome {
        Outcome::Python(Some(p)) => Some(p.clone()),
        _ => None,
    };
    let ends = !matches!(step, Step::SaveCredentials | Step::InstallCert | Step::MarkCert);
    let failed = match &outcome {
        Outcome::Failed(_) => true,
        _ => false,
    };
    let no_python_installed = matches!(step, Step::InstallPython) && found_python.is_none();
    if (failed && ends) || no_python_installed {
        let text = match &outcome {
            Outcome::Failed(e) => e.clone(),
            _ => String::new(),
        };
        messages.push(WorkerMsg::Failed(text));
        assert(messages@.map_values(|m: WorkerMsg| note_of(m)) =~= notes_after(job, step, o));
        return Transition {
            next: None,
            messages,
            warning: None,
            proxy_enabled: false,
            python: if python_step { found_python } else { None },
        };
    }
    let flag = match &outcome {
        Outcome::Flag(b) => *b,
        _ => false,
    };
    let mut warn: Option<String> = None;
    let next = match step {
        Step::LookUpPython => {
            if found_python.is_some() {
                Some(Step::CheckInstalled)
            } else {
                Some(Step::DetectPython)
            }
        },
        Step::DetectPython => match &found_python {
            Some(p) => {
                push_python_ready(&mut messages, p);
                Some(Step::CheckInstalled)
            },
            None => {
                messages.push(progress("Installing Python 3.11..."));
                Some(Step::InstallPython)
            },
        },
        Step::InstallPython => {
            match &found_python {
                Some(p) => push_python_ready(&mut messages, p),
                None => {},
            }
            Some(Step::CheckInstalled)
        },
        Step::CheckInstalled => {
            if flag {
                match job {
                    Job::Install => {
                        messages.push(progress("Project already installed"));
                        messages.push(WorkerMsg::InstallDone);
                        None
                    },
                    Job::Connect => Some(Step::SaveConfig),
                }
            } else {
                Some(Step::DownloadProject)
            }
        },
        Step::DownloadProject => Some(Step::PipInstall),
        Step::PipInstall => Some(Step::MarkInstalled),
        Step::MarkInstalled => match job {
            Job::Install => {
                messages.push(WorkerMsg::InstallDone);
                None
            },
            Job::Connect => Some(Step::SaveConfig),
        },
        Step::SaveConfig => Some(Step::SaveCredentials),
        Step::SaveCredentials => {
            if let Outcome::Failed(e) = &outcome {
                warn = Some(warning("credentials persistence", e.as_str()));
            }
            messages.push(progress("Starting VPN process..."));
            Some(Step::SpawnRunner)
        },
        Step::SpawnRunner => Some(Step::CheckCert),
        Step::CheckCert => {
            if flag {
                Some(Step::EnableProxy)
            } else {
                messages.push(progress("Installing certificate..."));
                Some(Step::InstallCert)
            }
        },
        Step::InstallCert => {
            if let Outcome::Failed(e) = &outcome {
                warn = Some(warning("cert install", e.as_str()));
                Some(Step::EnableProxy)
            } else {
                Some(Step::MarkCert)
            }
        },
        Step::MarkCert => {
            if let Outcome::Failed(e) = &outcome {
                warn = Some(warning("cert marker write", e.as_str()));
            }
            Some(Step::EnableProxy)
        },
        Step::EnableProxy => Some(Step::HealthCheck),
        Step::HealthCheck => {
            messages.push(WorkerMsg::Connected);
            None
        },
    };
    assert(messages@.map_values(|m: WorkerMsg| note_of(m)) =~= notes_after(job, step, o));
    let proxy_enabled = match step {
        Step::EnableProxy => !failed,
        _ => false,
    };
    Transition {
        next,
        messages,
        warning: warn,
        proxy_enabled,
        python: if python_step { found_python } else { None },
    }
}

/// The first step of a job.
pub fn start(job: Job) -> (r: Step)
    ensures
        r == first_step(job),
{
    Step::LookUpPython
}

/// The position of a step in the order the steps run.
pub open spec fn rank(step: Step) -> nat {
    match step {
        Step::LookUpPython => 0,
        Step::DetectPython => 1,
        Step::InstallPython => 2,
        Step::CheckInstalled => 3,
        Step::DownloadProject => 4,
        Step::PipInstall => 5,
        Step::MarkInstalled => 6,
        Step::SaveConfig => 7,
        Step::SaveCredentials => 8,
        Step::SpawnRunner => 9,
        Step::CheckCert => 10,
        Step::InstallCert => 11,
        Step::MarkCert => 12,
        Step::EnableProxy => 13,
        Step::HealthCheck => 14,
    }
}

/// A message that ends a job.
pub open spec fn is_final_note(n: Note) -> bool {
    n is InstallDone || n is Connected || n is Failed
}

/// Every step is followed by a later one, so every job comes to an end.
pub proof fn lemma_jobs_end(job: Job, step: Step, outcome: Outcome)
    ensures
        step_after(job, step, outcome) matches Some(next) ==> rank(next) > rank(step),
{
}

/// A job tells the window that it is over exactly once, with its last
/// message, and the message says how it ended: `Failed` after a failure,
/// `InstallDone` when installing succeeded, `Connected` after the health
/// check passed.
pub proof fn lemma_one_final_message(job: Job, step: Step, outcome: Outcome)
    ensures
        step_after(job, step, outcome) is None ==> {
            let notes = notes_after(job, step, outcome);
            &&& notes.len() > 0
            &&& (forall|i: int| 0 <= i < notes.len() - 1 ==> !is_final_note(#[trigger] notes[i]))
            &&& match notes.last() {
                Note::Failed(_) => ends_in_failure(step, outcome),
                Note::InstallDone => job is Install && !(outcome is Failed),
                Note::Connected => step is HealthCheck && !(outcome is Failed),
                _ => false,
            }
        },
        step_after(job, step, outcome) is Some ==> forall|i: int|
            0 <= i < notes_after(job, step, outcome).len() ==> !is_final_note(
                #[trigger] notes_after(job, step, outcome)[i],
            ),
{
    let notes = notes_after(job, step, outcome);
    if ends_in_failure(step, outcome) {
        assert(notes =~= seq![Note::Failed(failure_text(outcome))]);
    } else if step is CheckInstalled && (outcome matches Outcome::Flag(true)) && job is Install {
        assert(notes =~= seq![Note::Progress("Project already installed"@), Note::InstallDone]);
        assert(notes[0] is Progress);
    } else if step is MarkInstalled && job is Install {
        assert(notes =~= seq![Note::InstallDone]);
    } else if step is HealthCheck {
        assert(notes =~= seq![Note::Connected]);
    }
}

/// The window hears that the VPN is connected only from a health check that
/// passed, and the health check comes only right after the proxy was set.
pub proof fn lemma_connected_after_proxy(job: Job, step: Step, outcome: Outcome)
    ensures
        notes_after(job, step, outcome).contains(Note::Connected) ==> step is HealthCheck
            && !(outcome is Failed),
        step_after(job, step, outcome) == Some(Step::HealthCheck) ==> step is EnableProxy && !(
        outcome is Failed),
{
    if notes_after(job, step, outcome).contains(Note::Connected) {
        let notes = notes_after(job, step, outcome);
        let i = choose|i: int| 0 <= i < notes.len() && notes[i] == Note::Connected;
        assert(notes[i] == Note::Connected);
    }
}

/// A failure ends the job, and the window hears exactly that failure, at
/// every step except saving the credentials and installing or marking the
/// certificate: in particular a failed pip install is never followed by the
/// install marker or `InstallDone`, and a VPN process that failed to start
/// is never followed by the certificate, the proxy or `Connected`.
pub proof fn lemma_failure_stops_job(job: Job, step: Step, e: String)
    requires
        !(step is SaveCredentials || step is InstallCert || step is MarkCert),
    ensures
        step_after(job, step, Outcome::Failed(e)) is None,
        notes_after(job, step, Outcome::Failed(e)) == seq![Note::Failed(e@)],
        warning_after(step, Outcome::Failed(e)) is None,
{
    assert(notes_after(job, step, Outcome::Failed(e)) =~= seq![Note::Failed(e@)]);
}

/// The three soft steps never stop the job when they fail: the failure goes
/// to the log, naming the error, and the job carries on.
pub proof fn lemma_soft_failures_continue(job: Job, step: Step, e: String)
    requires
        step is SaveCredentials || step is InstallCert || step is MarkCert,
    ensures
        step_after(job, step, Outcome::Failed(e)) is Some,
        warning_after(step, Outcome::Failed(e)) is Some,
        (warning_after(step, Outcome::Failed(e))->0).len() >= e@.len(),
        (warning_after(step, Outcome::Failed(e))->0).subrange(
            (warning_after(step, Outcome::Failed(e))->0).len() - e@.len(),
            (warning_after(step, Outcome::Failed(e))->0).len() as int,
        ) == e@,
        !notes_after(job, step, Outcome::Failed(e)).contains(Note::Failed(e@)),
{
    let w = warning_after(step, Outcome::Failed(e))->0;
    assert(w.subrange(w.len() - e@.len(), w.len() as int) =~= e@);
    let notes = notes_after(job, step, Outcome::Failed(e));
    if notes.contains(Note::Failed(e@)) {
        let i = choose|i: int| 0 <= i < notes.len() && notes[i] == Note::Failed(e@);
        assert(notes[i] == Note::Failed(e@));
    }
}

/// What the connect job does after the VPN process is started only follows
/// a start that did not fail: the certificate check comes only right after
/// a successful start, and the proxy is set only on the way from there.
pub proof fn lemma_proxy_only_after_start(job: Job, step: Step, outcome: Outcome)
    ensures
        step_after(job, step, outcome) == Some(Step::CheckCert) ==> step is SpawnRunner && !(
        outcome is Failed),
        step_after(job, step, outcome) == Some(Step::SpawnRunner) ==> step is SaveCredentials,
        step_after(job, step, outcome) == Some(Step::InstallCert) ==> step is CheckCert,
        step_after(job, step, outcome) == Some(Step::MarkCert) ==> step is InstallCert && !(
        outcome is Failed),
        step_after(job, step, outcome) == Some(Step::EnableProxy) ==> (step is CheckCert
            || step is InstallCert || step is MarkCert),
{
}

/// The install marker is written only after pip succeeded, pip runs only
/// after the download succeeded, and `InstallDone` is sent only when the
/// marker was written or the project was already installed.
pub proof fn lemma_install_order(job: Job, step: Step, outcome: Outcome)
    ensures
        step_after(job, step, outcome) == Some(Step::MarkInstalled) ==> step is PipInstall && !(
        outcome is Failed),
        step_after(job, step, outcome) == Some(Step::PipInstall) ==> step is DownloadProject
            && !(outcome is Failed),
        notes_after(job, step, outcome).contains(Note::InstallDone) ==> job is Install && !(
        outcome is Failed) && (step is MarkInstalled || (step is CheckInstalled
            && outcome matches Outcome::Flag(true))),
{
    if notes_after(job, step, outcome).contains(Note::InstallDone) {
        let notes = notes_after(job, step, outcome);
        let i = choose|i: int| 0 <= i < notes.len() && notes[i] == Note::InstallDone;
        assert(notes[i] == Note::InstallDone);
    }
}

/// The project is never checked, set up or started before the job has an
/// interpreter: the step that leads to the install check is the one that
/// found it.
pub proof fn lemma_interpreter_before_setup(job: Job, step: Step, outcome: Outcome)
    ensures
        step_after(job, step, outcome) == Some(Step::CheckInstalled) ==> python_after(
            step,
            outcome,
        ) is Some,
{
}

/// Installing never goes past the install steps: it never saves
/// credentials, starts the VPN process or touches the proxy.
pub proof fn lemma_install_stays_in_setup(step: Step, outcome: Outcome)
    requires
        rank(step) <= 6,
    ensures
        step_after(Job::Install, step, outcome) is Some ==> rank(step_after(Job::Install, step, outcome)->0) <= 6,
{
}

/// The progress line once an interpreter is ready: `Python <version> ready`.
pub fn python_ready_message(py: &PythonInfo) -> (r: String)
    ensures
        r@ == "Python "@ + version_text(py.version) + " ready"@,
{
    let mut out = String::from_str("Python ");
    let v = py.version_string();
    out.append(v.as_str());
    out.append(" ready");
    out
}

/// An `i32` as `Debug` writes it: a `-` for negative numbers, then the
/// decimal digits.
pub open spec fn i32_text(n: i32) -> Seq<char> {
    if 0 > n {
        "-"@ + decimal((-(n as int)) as nat)
    } else {
        decimal(n as nat)
    }
}

/// An exit code as `Debug` writes an `Option<i32>`.
pub open spec fn exit_code_text(code: Option<i32>) -> Seq<char> {
    match code {
        Some(n) => "Some("@ + i32_text(n) + ")"@,
        None => "None"@,
    }
}

fn push_i32(out: &mut String, n: i32)
    ensures
        final(out)@ == old(out)@ + i32_text(n),
{
    if 0 > n {
        out.append("-");
        let m: i64 = 0 - n as i64;
        push_decimal(out, m as u64);
    } else {
        push_decimal(out, n as u64);
    }
}

fn push_exit_code(out: &mut String, code: Option<i32>)
    ensures
        final(out)@ == old(out)@ + exit_code_text(code),
{
    match code {
        Some(n) => {
            let ghost start = out@;
            out.append("Some(");
            push_i32(out, n);
            out.append(")");
            assert(out@ =~= start + exit_code_text(code));
        },
        None => {
            out.append("None");
        },
    }
}

/// The failure when the VPN process is gone at the health check: it names
/// the exit code, as in `VPN process exited immediately (code Some(1))`.
pub fn exited_immediately_message(code: Option<i32>) -> (r: String)
    ensures
        r@ == "VPN process exited immediately (code "@ + exit_code_text(code) + ")"@,
{
    let mut out = String::from_str("VPN process exited immediately (code ");
    push_exit_code(&mut out, code);
    out.append(")");
    out
}

} // verus!
