//! The failure report: one text file with what happened, the environment,
//! and the child's recent output, ready to paste into an assistant.

use vstd::prelude::*;
use crate::paths::{join, path_join, PROJECT_DIR};
use crate::python::{version_text, PythonInfo};
use crate::runner::LogRing;
use crate::text::{decimal, push_decimal};

verus! {

/// Which of the project's files were present when the report was made.
#[derive(Debug, Clone, Copy)]
pub struct Presence {
    pub project_dir: bool,
    pub main_script: bool,
    pub config: bool,
    pub install_marker: bool,
}

/// What the machine said about itself: the OS and architecture this build
/// is for, and the `OS` and `PROCESSOR_ARCHITECTURE` variables where set.
#[derive(Debug)]
pub struct Environment {
    pub os: String,
    pub arch: String,
    pub os_env: Option<String>,
    pub processor_architecture: Option<String>,
}

/// `true` or `false`, as `Display` writes a `bool`.
pub open spec fn bool_text(b: bool) -> Seq<char> {
    if b {
        "true"@
    } else {
        "false"@
    }
}

/// Each line followed by a newline.
pub open spec fn lines_block(lines: Seq<String>) -> Seq<char>
    decreases lines.len(),
{
    if lines.len() == 0 {
        Seq::empty()
    } else {
        lines_block(lines.drop_last()) + lines.last()@ + "\n"@
    }
}

/// The optional environment lines.
pub open spec fn env_lines(env: Environment) -> Seq<char> {
    (match env.os_env {
        Some(v) => "OS env: "@ + v@ + "\n"@,
        None => Seq::empty(),
    }) + (match env.processor_architecture {
        Some(v) => "PROCESSOR_ARCHITECTURE: "@ + v@ + "\n"@,
        None => Seq::empty(),
    })
}

/// The line about the interpreter.
pub open spec fn python_line(py: Option<PythonInfo>) -> Seq<char> {
    match py {
        Some(p) => "Python: "@ + version_text(p.version) + " ("@ + p.exe@ + ")\n"@,
        None => "Python: not detected\n"@,
    }
}

/// The lines about which project files are present.
pub open spec fn presence_lines(p: Presence) -> Seq<char> {
    bool_line("Project dir present: "@, p.project_dir) + bool_line("main.py present: "@, p.main_script)
        + bool_line("config.json present: "@, p.config) + bool_line("Install marker: "@, p.install_marker)
}

/// A line that states a yes-or-no fact: the label, then `true` or `false`.
pub open spec fn bool_line(label: Seq<char>, b: bool) -> Seq<char> {
    label + bool_text(b) + "\n"@
}

/// The report's opening lines: title, time, summary, OS, architecture and
/// pointer width.
pub open spec fn header_text(summary: Seq<char>, when: Seq<char>, env: Environment) -> Seq<char> {
    "=== hamid-mahdavi-client failure report ===\n"@ + "When: "@ + when + "\n"@ + "Summary: "@
        + summary + "\n\n"@ + "--- environment ---\n"@ + "OS: "@ + env.os@ + "\n"@ + "Arch: "@
        + env.arch@ + "\n"@ + "Pointer width: "@ + decimal(usize::BITS as nat) + "-bit\n"@
}

/// The whole report.
pub open spec fn report_body(
    summary: Seq<char>,
    when: Seq<char>,
    env: Environment,
    py: Option<PythonInfo>,
    presence: Presence,
    lines: Seq<String>,
) -> Seq<char> {
    header_text(summary, when, env) + env_lines(env) + python_line(py) + presence_lines(presence)
        + "\n--- recent child output (last 1000 lines) ---\n"@ + lines_block(lines)
}

/// `true` or `false` as written in the report.
pub open spec fn yes_no(b: bool) -> Seq<char> {
    if b {
        "true"@
    } else {
        "false"@
    }
}

/// After the opening lines, the environment variables and the interpreter,
/// the report states whether the project directory, `main.py`,
/// `config.json` and the install marker are each present, in that order and
/// each line from its own fact, then a blank line and the log's lines in
/// order.
pub proof fn lemma_report_layout(
    summary: Seq<char>,
    when: Seq<char>,
    env: Environment,
    py: Option<PythonInfo>,
    p: Presence,
    lines: Seq<String>,
)
    ensures
        report_body(summary, when, env, py, p, lines) == header_text(summary, when, env) + env_lines(
            env,
        ) + python_line(py) + ("Project dir present: "@ + yes_no(p.project_dir) + "\n"@
            + "main.py present: "@ + yes_no(p.main_script) + "\n"@ + "config.json present: "@
            + yes_no(p.config) + "\n"@ + "Install marker: "@ + yes_no(p.install_marker) + "\n"@)
            + "\n--- recent child output (last 1000 lines) ---\n"@ + lines_block(lines),
{
    assert(presence_lines(p) =~= "Project dir present: "@ + yes_no(p.project_dir) + "\n"@
        + "main.py present: "@ + yes_no(p.main_script) + "\n"@ + "config.json present: "@
        + yes_no(p.config) + "\n"@ + "Install marker: "@ + yes_no(p.install_marker) + "\n"@);
}

fn push_bool_line(out: &mut String, label: &str, b: bool)
    ensures
        final(out)@ == old(out)@ + bool_line(label@, b),
{
    out.append(label);
    if b {
        out.append("true");
    } else {
        out.append("false");
    }
    out.append("\n");
    assert(final(out)@ =~= old(out)@ + bool_line(label@, b));
}

fn push_header(out: &mut String, summary: &str, when: &str, env: &Environment)
    ensures
        final(out)@ == old(out)@ + header_text(summary@, when@, *env),
{
    let ghost start = out@;
    out.append("=== hamid-mahdavi-client failure report ===\n");
    out.append("When: ");
    out.append(when);
    out.append("\n");
    out.append("Summary: ");
    out.append(summary);
    out.append("\n\n");
    out.append("--- environment ---\n");
    out.append("OS: ");
    out.append(env.os.as_str());
    out.append("\n");
    out.append("Arch: ");
    out.append(env.arch.as_str());
    out.append("\n");
    out.append("Pointer width: ");
    push_decimal(out, usize::BITS as u64);
    out.append("-bit\n");
    assert(out@ =~= start + header_text(summary@, when@, *env));
}

fn push_env_lines(out: &mut String, env: &Environment)
    ensures
        final(out)@ == old(out)@ + env_lines(*env),
{
    let ghost start = out@;
    match &env.os_env {
        Some(v) => {
            out.append("OS env: ");
            out.append(v.as_str());
            out.append("\n");
        },
        None => {},
    }
    match &env.processor_architecture {
        Some(v) => {
            out.append("PROCESSOR_ARCHITECTURE: ");
            out.append(v.as_str());
            out.append("\n");
        },
        None => {},
    }
    assert(out@ =~= start + env_lines(*env));
}

fn push_python_line(out: &mut String, py: Option<&PythonInfo>)
    ensures
        final(out)@ == old(out)@ + python_line(
            match py {
                Some(p) => Some(*p),
                None => None,
            },
        ),
{
    let ghost start = out@;
    match py {
        Some(p) => {
            out.append("Python: ");
            let v = p.version_string();
            out.append(v.as_str());
            out.append(" (");
            out.append(p.exe.as_str());
            out.append(")\n");
            assert(out@ =~= start + python_line(Some(*p)));
        },
        None => {
            out.append("Python: not detected\n");
        },
    }
}

fn push_presence_lines(out: &mut String, presence: Presence)
    ensures
        final(out)@ == old(out)@ + presence_lines(presence),
{
    let ghost start = out@;
    let ghost a = bool_line("Project dir present: "@, presence.project_dir);
    let ghost b = bool_line("main.py present: "@, presence.main_script);
    let ghost c = bool_line("config.json present: "@, presence.config);
    let ghost d = bool_line("Install marker: "@, presence.install_marker);
    push_bool_line(out, "Project dir present: ", presence.project_dir);
    push_bool_line(out, "main.py present: ", presence.main_script);
    assert(out@ =~= start + (a + b));
    push_bool_line(out, "config.json present: ", presence.config);
    assert(out@ =~= start + (a + b + c));
    push_bool_line(out, "Install marker: ", presence.install_marker);
    assert(out@ =~= start + (a + b + c + d));
}

fn push_lines(out: &mut String, lines: &Vec<String>)
    ensures
        final(out)@ == old(out)@ + lines_block(lines@),
{
    let ghost start = out@;
    let mut i: usize = 0;
    while i < lines.len()
        invariant
            i <= lines@.len(),
            out@ == start + lines_block(lines@.subrange(0, i as int)),
        decreases lines@.len() - i,
    {
        out.append(lines[i].as_str());
        out.append("\n");
        assert(lines@.subrange(0, i + 1).drop_last() =~= lines@.subrange(0, i as int));
        assert(out@ =~= start + lines_block(lines@.subrange(0, i + 1)));
        i = i + 1;
    }
    assert(lines@.subrange(0, i as int) =~= lines@);
}

/// Writes the report: the summary, when it was made, the environment, the
/// interpreter if one was found, which project files are present, and the
/// log's lines.
pub fn report_text(
    summary: &str,
    when: &str,
    env: &Environment,
    py: Option<&PythonInfo>,
    presence: Presence,
    logs: &LogRing,
) -> (r: String)
    ensures
        r@ == report_body(
            summary@,
            when@,
            *env,
            match py {
                Some(p) => Some(*p),
                None => None,
            },
            presence,
            logs@,
        ),
{
    let mut out = String::new();
    push_header(&mut out, summary, when, env);
    push_env_lines(&mut out, env);
    push_python_line(&mut out, py);
    push_presence_lines(&mut out, presence);
    out.append("\n--- recent child output (last 1000 lines) ---\n");
    let lines = logs.snapshot();
    push_lines(&mut out, &lines);
    assert(out@ =~= report_body(
        summary@,
        when@,
        *env,
        match py {
            Some(p) => Some(*p),
            None => None,
        },
        presence,
        logs@,
    ));
    out
}

/// The report's file name for a time stamp: `report-<stamp>.txt`.
pub open spec fn report_file_name(stamp: Seq<char>) -> Seq<char> {
    "report-"@ + stamp + ".txt"@
}

/// Where the report stamped `stamp` goes: `report-<stamp>.txt` in the log
/// directory.
pub fn report_path(stamp: &str) -> (r: String)
    ensures
        r@ == path_join(path_join(PROJECT_DIR@, "logs"@), report_file_name(stamp@)),
{
    let mut name = String::from_str("report-");
    name.append(stamp);
    name.append(".txt");
    let dir = join(PROJECT_DIR, "logs");
    join(dir.as_str(), name.as_str())
}

} // verus!
