use lian::app::{Action, App};
use lian::catalog::{Operation, PackageManager};
use lian::config::Config;
use lian::keys::{Context, Key, KeyCode};
use lian::launch::Authorization;
use lian::state::{AppEvent, AppMode, InstallPhase, ViewMode};
use lian::types::{PackageInfo, UpdateOutput};

fn ctx(now: u64) -> Context {
    Context { now, term_height: 40, edit_is_number: false }
}

fn press(app: &mut App, code: KeyCode, now: u64) -> Action {
    app.handle_key(Key::plain(code), ctx(now))
}

fn nothing(a: Action) {
    match a {
        Action::Nothing => {}
        other => panic!("unexpected {:?}", other),
    }
}

fn info(name: &str) -> PackageInfo {
    PackageInfo {
        repo: "extra".to_string(),
        name: name.to_string(),
        version: "1.0-1".to_string(),
        description: String::new(),
        installed: false,
    }
}

fn install_app(analysis: bool) -> App {
    let mut config = Config::default_for_home("/home/test");
    config.ai.install = analysis;
    let mut app = App::new(config);
    app.apply_event(AppEvent::PackageManagerDetected(PackageManager {
        command: "pacman".to_string(),
    }));
    nothing(press(&mut app, KeyCode::Char('S'), 0));
    assert_eq!(app.mode, AppMode::Install);
    assert_eq!(app.install.phase, InstallPhase::Searching);
    app
}

fn search(app: &mut App, word: &str, start: u64) -> u64 {
    let mut now = start;
    for c in word.chars() {
        nothing(press(app, KeyCode::Char(c), now));
        now += 20;
    }
    assert!(app.install.searching);
    let (query, install) = app.tick(now + 250);
    nothing(query);
    match install {
        Action::SearchRemote { keyword, seq } => {
            assert_eq!(keyword, app.install.input);
            seq
        }
        other => panic!("unexpected {:?}", other),
    }
}

#[test]
fn typing_schedules_one_search_after_the_pause() {
    let mut app = install_app(false);
    nothing(press(&mut app, KeyCode::Char('v'), 0));
    nothing(press(&mut app, KeyCode::Char('i'), 100));
    let (a, b) = app.tick(200);
    nothing(a);
    nothing(b);
    nothing(press(&mut app, KeyCode::Char('m'), 300));
    let (a, b) = app.tick(549);
    nothing(a);
    nothing(b);
    let (a, b) = app.tick(550);
    nothing(a);
    match b {
        Action::SearchRemote { keyword, seq } => {
            assert_eq!(keyword, "vim");
            assert_eq!(seq, 1);
        }
        other => panic!("unexpected {:?}", other),
    }
    let (a, b) = app.tick(900);
    nothing(a);
    nothing(b);
}

#[test]
fn mode_letters_are_search_text() {
    let mut app = install_app(false);
    for c in "QUX".chars() {
        press(&mut app, KeyCode::Char(c), 0);
    }
    assert_eq!(app.mode, AppMode::Install);
    assert_eq!(app.install.input, "QUX");
    assert_eq!(app.install.cursor, 3);
}

#[test]
fn stale_results_are_dropped() {
    let mut app = install_app(false);
    let first = search(&mut app, "fire", 0);
    let second = search(&mut app, "fox", 1_000);
    assert_eq!((first, second), (1, 2));
    nothing(app.apply_event(AppEvent::InstallSearchResults {
        results: vec![info("firefox"), info("firefox-esr")],
        seq: second,
    }));
    assert_eq!(app.install.results.len(), 2);
    assert!(!app.install.searching);
    nothing(app.apply_event(AppEvent::InstallSearchResults {
        results: vec![info("fire"), info("firewalld"), info("firejail")],
        seq: first,
    }));
    assert_eq!(app.install.results.len(), 2);
    assert_eq!(app.install.results[0].name, "firefox");
    assert_eq!(app.install.results[1].name, "firefox-esr");
}

#[test]
fn emptied_search_clears_the_results_and_outdates_answers() {
    let mut app = install_app(false);
    let seq = search(&mut app, "a", 0);
    press(&mut app, KeyCode::Backspace, 500);
    assert_eq!(app.install.input, "");
    assert!(!app.install.searching);
    app.apply_event(AppEvent::InstallSearchResults { results: vec![info("a")], seq });
    assert!(app.install.results.is_empty());
    let (a, b) = app.tick(5_000);
    nothing(a);
    nothing(b);
}

#[test]
fn marked_packages_are_installed() {
    let mut app = install_app(false);
    let seq = search(&mut app, "fire", 0);
    app.apply_event(AppEvent::InstallSearchResults {
        results: vec![info("firefox"), info("firewalld"), info("firejail")],
        seq,
    });
    nothing(press(&mut app, KeyCode::Char(' '), 600));
    assert_eq!(app.install.marked, vec![0]);
    assert_eq!(app.install.selected, 1);
    nothing(press(&mut app, KeyCode::Down, 600));
    nothing(press(&mut app, KeyCode::Char(' '), 600));
    assert_eq!(app.install.marked, vec![0, 2]);
    assert_eq!(app.install.selected, 2);
    assert_eq!(
        app.install.collect_selected_packages(),
        vec!["firefox".to_string(), "firejail".to_string()]
    );

    match press(&mut app, KeyCode::Enter, 700) {
        Action::PreviewInstall(names) => {
            assert_eq!(names, vec!["firefox".to_string(), "firejail".to_string()])
        }
        other => panic!("unexpected {:?}", other),
    }
    assert_eq!(app.install.phase, InstallPhase::PreviewingInstall);
    assert_eq!(app.install.preview, vec!["正在获取安装预览...".to_string()]);
    nothing(press(&mut app, KeyCode::Enter, 710));
    assert_eq!(app.install.phase, InstallPhase::PreviewingInstall);

    let preview = vec!["  firefox 1.0-1".to_string(), String::new()];
    nothing(app.apply_event(AppEvent::InstallPreviewReady(preview.clone())));
    assert_eq!(app.install.preview, preview);
    match press(&mut app, KeyCode::Enter, 800) {
        Action::Authorize(op) => assert_eq!(op, Operation::Install),
        other => panic!("unexpected {:?}", other),
    }
    match app.authorization_result(Operation::Install, Authorization::Granted) {
        Action::Run { operation, argv } => {
            assert_eq!(operation, Operation::Install);
            assert_eq!(
                argv,
                vec!["sudo", "pacman", "-S", "--noconfirm", "firefox", "firejail"]
                    .into_iter()
                    .map(String::from)
                    .collect::<Vec<_>>()
            );
        }
        other => panic!("unexpected {:?}", other),
    }
    assert_eq!(app.install.phase, InstallPhase::Installing);
    assert_eq!(app.install.lines, vec!["正在安装: firefox, firejail ...".to_string()]);
    assert!(app.supervisor.active.is_some());

    nothing(app.apply_event(AppEvent::InstallLine("installing firefox...".to_string())));
    assert_eq!(app.install.lines.len(), 2);
    let out = UpdateOutput { stdout: "ok\n".to_string(), stderr: String::new(), success: true };
    match app.apply_event(AppEvent::InstallComplete { output: out }) {
        Action::RefreshInstalledCount => {}
        other => panic!("unexpected {:?}", other),
    }
    assert_eq!(app.install.phase, InstallPhase::InstallComplete);
    assert!(app.supervisor.active.is_none());
    assert_eq!(app.install.lines.last().unwrap(), "--- 安装完成 ---");

    nothing(press(&mut app, KeyCode::Esc, 900));
    assert_eq!(app.mode, AppMode::Dashboard);
    assert!(app.install.results.is_empty());
    assert_eq!(app.install.phase, InstallPhase::Searching);
}

#[test]
fn highlighted_package_is_installed_when_none_is_marked() {
    let mut app = install_app(false);
    let seq = search(&mut app, "vi", 0);
    app.apply_event(AppEvent::InstallSearchResults { results: vec![info("vi"), info("vim")], seq });
    press(&mut app, KeyCode::Down, 600);
    assert_eq!(app.install.collect_selected_packages(), vec!["vim".to_string()]);
    press(&mut app, KeyCode::Down, 600);
    assert_eq!(app.install.selected, 1);
    press(&mut app, KeyCode::Up, 600);
    press(&mut app, KeyCode::Up, 600);
    assert_eq!(app.install.selected, 0);
}

#[test]
fn enter_without_results_does_nothing() {
    let mut app = install_app(false);
    nothing(press(&mut app, KeyCode::Enter, 0));
    assert_eq!(app.install.phase, InstallPhase::Searching);
    nothing(press(&mut app, KeyCode::Char(' '), 0));
    assert!(app.install.marked.is_empty());
}

#[test]
fn preview_can_be_left_and_scrolled() {
    let mut app = install_app(false);
    let seq = search(&mut app, "vi", 0);
    app.apply_event(AppEvent::InstallSearchResults { results: vec![info("vim")], seq });
    press(&mut app, KeyCode::Enter, 600);
    app.apply_event(AppEvent::InstallPreviewReady(vec!["a".to_string(), "b".to_string()]));
    press(&mut app, KeyCode::Down, 600);
    press(&mut app, KeyCode::Down, 600);
    assert_eq!(app.install.scroll, 2);
    press(&mut app, KeyCode::Up, 600);
    assert_eq!(app.install.scroll, 1);
    nothing(press(&mut app, KeyCode::Esc, 600));
    assert_eq!(app.install.phase, InstallPhase::Searching);
    assert!(app.install.preview.is_empty());
    assert_eq!(app.install.scroll, 0);
    assert_eq!(app.install.results.len(), 1);
}

#[test]
fn escape_during_the_run_asks_to_cancel() {
    let mut app = install_app(false);
    let seq = search(&mut app, "vi", 0);
    app.apply_event(AppEvent::InstallSearchResults { results: vec![info("vim")], seq });
    press(&mut app, KeyCode::Enter, 600);
    app.apply_event(AppEvent::InstallPreviewReady(vec!["a".to_string(), "b".to_string()]));
    press(&mut app, KeyCode::Enter, 600);
    app.authorization_result(Operation::Install, Authorization::Granted);
    match press(&mut app, KeyCode::Esc, 700) {
        Action::Cancel => {}
        other => panic!("unexpected {:?}", other),
    }
    assert_eq!(app.install.phase, InstallPhase::Searching);
    assert_eq!(app.mode, AppMode::Install);
    let out = UpdateOutput {
        stdout: String::new(),
        stderr: "安装已取消".to_string(),
        success: false,
    };
    nothing(app.apply_event(AppEvent::InstallComplete { output: out }));
    assert_eq!(app.install.phase, InstallPhase::Searching);
    assert!(app.supervisor.active.is_none());
}

#[test]
fn analysis_follows_a_successful_install() {
    let mut app = install_app(true);
    let seq = search(&mut app, "vi", 0);
    app.apply_event(AppEvent::InstallSearchResults { results: vec![info("vim")], seq });
    press(&mut app, KeyCode::Enter, 600);
    app.apply_event(AppEvent::InstallPreviewReady(vec!["a".to_string(), "b".to_string()]));
    press(&mut app, KeyCode::Enter, 600);
    app.authorization_result(Operation::Install, Authorization::Granted);
    let out = UpdateOutput { stdout: "done".to_string(), stderr: String::new(), success: true };
    match app.apply_event(AppEvent::InstallComplete { output: out }) {
        Action::Analyze { operation, prompt, refresh_count } => {
            assert_eq!(operation, Operation::Install);
            assert!(refresh_count);
            assert_eq!(
                prompt,
                "以下是在 Linux 系统上使用 pacman 安装软件包的日志。\n安装的包: vim\n\n安装日志:\ndone\n\n\n请简要分析安装结果，说明是否成功，安装了哪些包及其依赖，是否有需要注意的问题。"
            );
        }
        other => panic!("unexpected {:?}", other),
    }
    assert_eq!(app.install.phase, InstallPhase::Analyzing);
    match app.apply_event(AppEvent::InstallAnalysisComplete("fine".to_string())) {
        Action::SaveReport { operation, analysis, .. } => {
            assert_eq!(operation, Operation::Install);
            assert_eq!(analysis, "fine");
        }
        other => panic!("unexpected {:?}", other),
    }
    assert_eq!(app.install.phase, InstallPhase::AnalysisComplete);
    assert_eq!(app.install.view_mode, ViewMode::AIAnalysis);
    nothing(press(&mut app, KeyCode::Tab, 0));
    assert_eq!(app.install.view_mode, ViewMode::UpdateLog);
    nothing(app.apply_event(AppEvent::AnalysisComplete("late".to_string())));
    assert_eq!(app.install.analysis.as_deref(), Some("fine"));
}

#[test]
fn failed_install_shows_the_error_output() {
    let mut app = install_app(true);
    let seq = search(&mut app, "vi", 0);
    app.apply_event(AppEvent::InstallSearchResults { results: vec![info("vim")], seq });
    press(&mut app, KeyCode::Enter, 600);
    app.apply_event(AppEvent::InstallPreviewReady(vec!["a".to_string(), "b".to_string()]));
    press(&mut app, KeyCode::Enter, 600);
    app.authorization_result(Operation::Install, Authorization::Granted);
    let out = UpdateOutput {
        stdout: String::new(),
        stderr: "error: target not found: vim".to_string(),
        success: false,
    };
    match app.apply_event(AppEvent::InstallComplete { output: out }) {
        Action::RefreshInstalledCount => {}
        other => panic!("unexpected {:?}", other),
    }
    assert_eq!(app.install.phase, InstallPhase::Error);
    assert_eq!(app.error_message.as_deref(), Some("error: target not found: vim"));
}
