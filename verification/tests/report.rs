use hamid_mahdavi_client::python::PythonInfo;
use hamid_mahdavi_client::report::{report_path, report_text, Environment, Presence};
use hamid_mahdavi_client::runner::LogRing;

#[test]
fn report_layout() {
    let mut logs = LogRing::new();
    logs.push("[out] one".to_string());
    logs.push("[err] two".to_string());
    let env = Environment {
        os: "windows".into(),
        arch: "x86_64".into(),
        os_env: Some("Windows_NT".into()),
        processor_architecture: None,
    };
    let py = PythonInfo { exe: r"C:\Python311\python.exe".into(), version: (3, 11, 9) };
    let presence = Presence { project_dir: true, main_script: true, config: false, install_marker: true };
    let text = report_text("user-requested report", "2024-01-02T03:04:05+00:00", &env, Some(&py), presence, &logs);
    let expected = format!(
        "=== hamid-mahdavi-client failure report ===\n\
When: 2024-01-02T03:04:05+00:00\n\
Summary: user-requested report\n\n\
--- environment ---\n\
OS: windows\n\
Arch: x86_64\n\
Pointer width: {}-bit\n\
OS env: Windows_NT\n\
Python: 3.11.9 (C:\\Python311\\python.exe)\n\
Project dir present: true\n\
main.py present: true\n\
config.json present: false\n\
Install marker: true\n\
\n\
--- recent child output (last 1000 lines) ---\n\
[out] one\n\
[err] two\n",
        usize::BITS
    );
    assert_eq!(text, expected);
}

#[test]
fn report_without_python() {
    let logs = LogRing::new();
    let env = Environment {
        os: "linux".into(),
        arch: "aarch64".into(),
        os_env: None,
        processor_architecture: Some("ARM64".into()),
    };
    let presence = Presence { project_dir: false, main_script: false, config: false, install_marker: false };
    let text = report_text("s", "t", &env, None, presence, &logs);
    assert!(text.contains("PROCESSOR_ARCHITECTURE: ARM64\nPython: not detected\n"));
    assert!(!text.contains("OS env:"));
    assert!(text.ends_with("--- recent child output (last 1000 lines) ---\n"));
}

#[test]
fn report_file_location() {
    assert_eq!(report_path("20240102-030405"), r"C:\hamid-mahdavi-client\logs\report-20240102-030405.txt");
}
