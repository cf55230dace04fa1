use hamid_mahdavi_client::config::Config;
use hamid_mahdavi_client::gui::{
    initial_mode, log_box_text, prefill_credentials, GuiCmd, Mode, ReportClick, Screen,
    ScreenEffect, WorkerMsg,
};
use hamid_mahdavi_client::python::PythonInfo;

#[test]
fn labels_and_enabled_state() {
    let all = [
        (Mode::NeedsInstall, "Install", true),
        (Mode::Installing, "Installing...", false),
        (Mode::Ready, "Connect", true),
        (Mode::Connecting, "Connecting...", false),
        (Mode::Connected, "Disconnect", true),
        (Mode::Disconnecting, "Disconnecting...", false),
    ];
    for (m, label, enabled) in all {
        assert_eq!(m.button_label(), label);
        assert_eq!(m.button_enabled(), enabled);
    }
}

#[test]
fn starts_by_install_state() {
    assert_eq!(initial_mode(true), Mode::Ready);
    assert_eq!(initial_mode(false), Mode::NeedsInstall);
    let s = Screen::new(false);
    assert_eq!(s.mode, Mode::NeedsInstall);
    assert_eq!(s.status, "Status: idle");
    assert_eq!(s.progress, 0);
    assert!(!s.report_visible);
    assert!(s.last_report.is_none());
}

#[test]
fn install_flow() {
    let mut s = Screen::new(false);
    let cmd = s.on_action_click(String::new(), String::new());
    assert!(matches!(cmd, Some(GuiCmd::Install)));
    assert_eq!(s.mode, Mode::Installing);
    assert_eq!(s.status, "Status: installing...");
    assert!(!s.mode.button_enabled());
    // A click while installing does nothing.
    assert!(s.on_action_click("a".into(), "b".into()).is_none());
    assert_eq!(s.mode, Mode::Installing);
    s.on_worker_msg(WorkerMsg::Progress("Downloading".into()));
    assert_eq!(s.status, "Status: Downloading");
    assert_eq!(s.progress, 5);
    s.on_worker_msg(WorkerMsg::InstallDone);
    assert_eq!(s.mode, Mode::Ready);
    assert_eq!(s.progress, 100);
    assert_eq!(
        s.status,
        "Status: installation complete — enter credentials and click Connect"
    );
}

#[test]
fn progress_steps_stop_below_full() {
    let mut s = Screen::new(true);
    for _ in 0..40 {
        s.on_worker_msg(WorkerMsg::Progress("x".into()));
    }
    assert_eq!(s.progress, 95);
}

#[test]
fn connect_requires_both_credentials() {
    let mut s = Screen::new(true);
    let cmd = s.on_action_click("sid".into(), "  ".into());
    assert!(cmd.is_none());
    assert_eq!(s.mode, Mode::Ready);
    assert_eq!(s.status, "Status: please fill both Script ID and Auth Key before connecting");
    let cmd = s.on_action_click("sid".into(), "key".into());
    match cmd {
        Some(GuiCmd::Connect { credentials }) => {
            assert_eq!(credentials.script_id, "sid");
            assert_eq!(credentials.auth_key, "key");
        }
        _ => panic!("expected a connect command"),
    }
    assert_eq!(s.mode, Mode::Connecting);
    assert_eq!(s.status, "Status: connecting...");
    s.on_worker_msg(WorkerMsg::Connected);
    assert_eq!(s.mode, Mode::Connected);
    assert_eq!(s.status, "Status: connected (proxy 127.0.0.1:8085)");
    let cmd = s.on_action_click(String::new(), String::new());
    assert!(matches!(cmd, Some(GuiCmd::Disconnect)));
    assert_eq!(s.mode, Mode::Disconnecting);
    assert_eq!(s.status, "Status: disconnecting...");
    s.on_worker_msg(WorkerMsg::Disconnected);
    assert_eq!(s.mode, Mode::Ready);
    assert_eq!(s.progress, 0);
    assert_eq!(s.status, "Status: disconnected");
}

#[test]
fn failure_rolls_back_and_offers_report() {
    let mut s = Screen::new(false);
    s.on_action_click(String::new(), String::new());
    s.on_worker_msg(WorkerMsg::Failed("boom".into()));
    assert_eq!(s.mode, Mode::NeedsInstall);
    assert_eq!(s.status, "Status: failed — boom");
    assert!(s.report_visible);
    assert_eq!(s.progress, 0);

    let mut s = Screen::new(true);
    s.on_action_click("a".into(), "b".into());
    s.on_worker_msg(WorkerMsg::Failed("x".into()));
    assert_eq!(s.mode, Mode::Ready);
    // A new click hides the stale report button.
    s.on_action_click(String::new(), String::new());
    assert!(!s.report_visible);
}

#[test]
fn report_buttons() {
    let mut s = Screen::new(true);
    assert!(matches!(s.on_report_click(), ReportClick::Request(GuiCmd::SaveReport)));
    let eff = s.on_worker_msg(WorkerMsg::ReportSaved(r"C:\r.txt".into()));
    assert!(matches!(eff, ScreenEffect::OpenReport(ref p) if p == r"C:\r.txt"));
    assert_eq!(s.status, r"Status: report saved → C:\r.txt");
    s.report_open_failed(r"C:\r.txt", "denied");
    assert_eq!(s.status, r"Status: report saved at C:\r.txt (could not auto-open: denied)");
    match s.on_report_click() {
        ReportClick::Reopen(p) => assert_eq!(p, r"C:\r.txt"),
        _ => panic!("expected to reopen"),
    }
    s.reopen_failed("gone");
    assert_eq!(s.status, "Status: could not open report — gone");
    // A failure forgets the saved report.
    s.on_worker_msg(WorkerMsg::Failed("again".into()));
    assert!(s.last_report.is_none());
}

#[test]
fn python_message_is_passed_on() {
    let mut s = Screen::new(true);
    let eff = s.on_worker_msg(WorkerMsg::SetPython { exe: "py.exe".into(), version: (3, 11, 9) });
    match eff {
        ScreenEffect::StorePython(PythonInfo { exe, version }) => {
            assert_eq!(exe, "py.exe");
            assert_eq!(version, (3, 11, 9));
        }
        _ => panic!("expected the interpreter"),
    }
    assert_eq!(s.status, "Status: idle");
}

#[test]
fn log_box_joins_with_crlf() {
    assert_eq!(log_box_text(&vec![]), "");
    assert_eq!(log_box_text(&vec!["a".to_string()]), "a");
    assert_eq!(
        log_box_text(&vec!["a".to_string(), "b".to_string(), "c".to_string()]),
        "a\r\nb\r\nc"
    );
}

#[test]
fn prefill_prefers_store() {
    let cfg = Config { script_id: "c1".into(), auth_key: "c2".into() };
    assert_eq!(
        prefill_credentials(Some(("s1".into(), "s2".into())), Some(cfg.clone())),
        Some(("s1".to_string(), "s2".to_string()))
    );
    assert_eq!(
        prefill_credentials(None, Some(cfg)),
        Some(("c1".to_string(), "c2".to_string()))
    );
    assert_eq!(prefill_credentials(None, None), None);
}
