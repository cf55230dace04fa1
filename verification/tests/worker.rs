use hamid_mahdavi_client::gui::WorkerMsg;
use hamid_mahdavi_client::python::PythonInfo;
use hamid_mahdavi_client::worker::{
    advance, exited_immediately_message, python_ready_message, start, Job, Outcome, Step,
};

fn texts(msgs: &[WorkerMsg]) -> Vec<String> {
    msgs.iter().map(|m| format!("{m:?}")).collect()
}

#[test]
fn install_when_already_installed() {
    let s = start(Job::Install);
    assert_eq!(s, Step::LookUpPython);
    let cached = PythonInfo { exe: "py.exe".into(), version: (3, 11, 9) };
    let t = advance(Job::Install, s, Outcome::Python(Some(cached)));
    assert_eq!(t.next, Some(Step::CheckInstalled));
    assert!(t.messages.is_empty());
    assert_eq!(t.python.unwrap().exe, "py.exe");
    let t = advance(Job::Install, Step::CheckInstalled, Outcome::Flag(true));
    assert_eq!(t.next, None);
    assert_eq!(
        texts(&t.messages),
        vec!["Progress(\"Project already installed\")".to_string(), "InstallDone".to_string()]
    );
}

#[test]
fn install_from_scratch() {
    let t = advance(Job::Install, Step::CheckInstalled, Outcome::Flag(false));
    assert_eq!(t.next, Some(Step::DownloadProject));
    assert_eq!(advance(Job::Install, Step::DownloadProject, Outcome::Done).next, Some(Step::PipInstall));
    assert_eq!(advance(Job::Install, Step::PipInstall, Outcome::Done).next, Some(Step::MarkInstalled));
    let t = advance(Job::Install, Step::MarkInstalled, Outcome::Done);
    assert_eq!(t.next, None);
    assert_eq!(texts(&t.messages), vec!["InstallDone".to_string()]);
    assert!(!t.proxy_enabled);
}

#[test]
fn failures_end_the_job() {
    let t = advance(Job::Install, Step::DownloadProject, Outcome::Failed("GET x: 404".into()));
    assert_eq!(t.next, None);
    assert_eq!(texts(&t.messages), vec!["Failed(\"GET x: 404\")".to_string()]);
    let t = advance(Job::Connect, Step::EnableProxy, Outcome::Failed("registry".into()));
    assert_eq!(t.next, None);
    assert!(!t.proxy_enabled);
}

#[test]
fn connect_flow() {
    assert_eq!(advance(Job::Connect, Step::CheckInstalled, Outcome::Flag(true)).next, Some(Step::SaveConfig));
    assert_eq!(advance(Job::Connect, Step::MarkInstalled, Outcome::Done).next, Some(Step::SaveConfig));
    assert_eq!(advance(Job::Connect, Step::SaveConfig, Outcome::Done).next, Some(Step::SaveCredentials));
    let t = advance(Job::Connect, Step::SaveCredentials, Outcome::Done);
    assert_eq!(t.next, Some(Step::SpawnRunner));
    assert_eq!(texts(&t.messages), vec!["Progress(\"Starting VPN process...\")".to_string()]);
    assert!(t.warning.is_none());
    assert_eq!(advance(Job::Connect, Step::SpawnRunner, Outcome::Done).next, Some(Step::CheckCert));
    let t = advance(Job::Connect, Step::CheckCert, Outcome::Flag(false));
    assert_eq!(t.next, Some(Step::InstallCert));
    assert_eq!(texts(&t.messages), vec!["Progress(\"Installing certificate...\")".to_string()]);
    assert_eq!(advance(Job::Connect, Step::CheckCert, Outcome::Flag(true)).next, Some(Step::EnableProxy));
    assert_eq!(advance(Job::Connect, Step::InstallCert, Outcome::Done).next, Some(Step::MarkCert));
    assert_eq!(advance(Job::Connect, Step::MarkCert, Outcome::Done).next, Some(Step::EnableProxy));
    let t = advance(Job::Connect, Step::EnableProxy, Outcome::Done);
    assert_eq!(t.next, Some(Step::HealthCheck));
    assert!(t.proxy_enabled);
    let t = advance(Job::Connect, Step::HealthCheck, Outcome::Done);
    assert_eq!(t.next, None);
    assert_eq!(texts(&t.messages), vec!["Connected".to_string()]);
}

#[test]
fn soft_failures_are_logged() {
    let t = advance(Job::Connect, Step::SaveCredentials, Outcome::Failed("APPDATA is not set".into()));
    assert_eq!(t.next, Some(Step::SpawnRunner));
    assert_eq!(t.warning.as_deref(), Some("[launcher] credentials persistence warning: APPDATA is not set"));
    let t = advance(Job::Connect, Step::InstallCert, Outcome::Failed("exit 1".into()));
    assert_eq!(t.next, Some(Step::EnableProxy));
    assert_eq!(t.warning.as_deref(), Some("[launcher] cert install warning: exit 1"));
    let t = advance(Job::Connect, Step::MarkCert, Outcome::Failed("disk".into()));
    assert_eq!(t.next, Some(Step::EnableProxy));
    assert_eq!(t.warning.as_deref(), Some("[launcher] cert marker write warning: disk"));
}

#[test]
fn python_is_detected_then_installed() {
    let t = advance(Job::Connect, Step::LookUpPython, Outcome::Python(None));
    assert_eq!(t.next, Some(Step::DetectPython));
    assert!(t.messages.is_empty() && t.python.is_none());
    let t = advance(Job::Connect, Step::DetectPython, Outcome::Python(None));
    assert_eq!(t.next, Some(Step::InstallPython));
    assert_eq!(texts(&t.messages), vec!["Progress(\"Installing Python 3.11...\")".to_string()]);
    let p = PythonInfo { exe: r"C:\Python311\python.exe".into(), version: (3, 11, 9) };
    let t = advance(Job::Connect, Step::InstallPython, Outcome::Python(Some(p)));
    assert_eq!(t.next, Some(Step::CheckInstalled));
    assert_eq!(
        texts(&t.messages),
        vec![
            "Progress(\"Python 3.11.9 ready\")".to_string(),
            "SetPython { exe: \"C:\\\\Python311\\\\python.exe\", version: (3, 11, 9) }".to_string(),
        ]
    );
    assert_eq!(t.python.unwrap().version, (3, 11, 9));
    let found = PythonInfo { exe: "python.exe".into(), version: (3, 12, 0) };
    let t = advance(Job::Install, Step::DetectPython, Outcome::Python(Some(found)));
    assert_eq!(t.next, Some(Step::CheckInstalled));
    assert_eq!(t.messages.len(), 2);
}

#[test]
fn python_install_failure_ends_job() {
    let t = advance(Job::Install, Step::InstallPython, Outcome::Failed("downloading Python installer: GET".into()));
    assert_eq!(t.next, None);
    assert_eq!(texts(&t.messages), vec!["Failed(\"downloading Python installer: GET\")".to_string()]);
    assert!(t.python.is_none());
}

#[test]
fn health_check_messages() {
    assert_eq!(exited_immediately_message(Some(1)), "VPN process exited immediately (code Some(1))");
    assert_eq!(exited_immediately_message(Some(-1073741819)), "VPN process exited immediately (code Some(-1073741819))");
    assert_eq!(exited_immediately_message(Some(i32::MIN)), format!("VPN process exited immediately (code {:?})", Some(i32::MIN)));
    assert_eq!(exited_immediately_message(None), "VPN process exited immediately (code None)");
    let py = PythonInfo { exe: "python.exe".into(), version: (3, 12, 1) };
    assert_eq!(python_ready_message(&py), "Python 3.12.1 ready");
}
