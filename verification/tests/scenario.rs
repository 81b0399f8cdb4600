use lian::app::{Action, App};
use lian::catalog::{Operation, PackageManager};
use lian::config::Config;
use lian::demux::{StreamDemux, StreamSource};
use lian::keys::{Context, Key, KeyCode};
use lian::launch::Authorization;
use lian::state::{AppEvent, AppMode, UpdatePhase, ViewMode};
use lian::supervisor::{LadderAction, Signal};

fn ctx(now: u64) -> Context {
    Context { now, term_height: 40, edit_is_number: false }
}

fn app_without_analysis() -> App {
    let mut config = Config::default_for_home("/home/test");
    config.ai.update = false;
    App::new(config)
}

fn to_update_preview(app: &mut App) {
    let pm = PackageManager { command: "paru".to_string() };
    match app.apply_event(AppEvent::PackageManagerDetected(pm)) {
        Action::CountInstalled { check_updates } => assert!(!check_updates),
        other => panic!("unexpected {:?}", other),
    }
    match app.handle_key(Key::plain(KeyCode::Char('U')), ctx(0)) {
        Action::CheckUpdates => {}
        other => panic!("unexpected {:?}", other),
    }
    assert_eq!(app.mode, AppMode::Update);
    assert_eq!(app.update.phase, UpdatePhase::PackageManagerCheck);
    assert_eq!(app.update.lines, vec!["正在检查可用更新...".to_string()]);
    let updates = vec!["linux 6.12.1 -> 6.12.2".to_string()];
    match app.apply_event(AppEvent::UpdatePreviewReady(updates)) {
        Action::Nothing => {}
        other => panic!("unexpected {:?}", other),
    }
    assert_eq!(app.update.phase, UpdatePhase::PreviewingUpdates);
    assert_eq!(
        app.update.lines,
        vec![
            "找到 1 个可用更新：".to_string(),
            String::new(),
            "  linux 6.12.1 -> 6.12.2".to_string()
        ]
    );
}

fn start_update(app: &mut App) -> Vec<String> {
    match app.handle_key(Key::plain(KeyCode::Enter), ctx(10)) {
        Action::Authorize(op) => assert_eq!(op, Operation::Update),
        other => panic!("unexpected {:?}", other),
    }
    match app.authorization_result(Operation::Update, Authorization::Granted) {
        Action::Run { operation, argv } => {
            assert_eq!(operation, Operation::Update);
            argv
        }
        other => panic!("unexpected {:?}", other),
    }
}

#[test]
fn successful_update_runs_to_completion() {
    let mut app = app_without_analysis();
    to_update_preview(&mut app);
    let argv = start_update(&mut app);
    assert_eq!(argv, vec!["paru".to_string(), "-Syu".to_string(), "--noconfirm".to_string()]);
    assert_eq!(app.update.phase, UpdatePhase::Updating);
    assert!(app.is_executing());
    assert_eq!(app.update.lines, vec!["正在执行更新...".to_string()]);
    app.child_started(4321);
    assert_eq!(app.supervisor.active.unwrap().pgid, 4321);

    let mut out = StreamDemux::new(StreamSource::Stdout);
    let mut err = StreamDemux::new(StreamSource::Stderr);
    let mut events = out.feed(b"line1\nli");
    events.extend(out.feed(b"ne2\nline3\n"));
    events.extend(out.finish());
    events.extend(err.finish());
    assert_eq!(events.len(), 3);
    for e in &events {
        match app.apply_event(AppEvent::UpdateLine(e.to_message())) {
            Action::Nothing => {}
            other => panic!("unexpected {:?}", other),
        }
    }
    assert_eq!(
        app.update.lines,
        vec![
            "正在执行更新...".to_string(),
            "line1".to_string(),
            "line2".to_string(),
            "line3".to_string()
        ]
    );

    let result = app
        .supervisor
        .finish(out.captured.clone(), err.captured.clone(), true)
        .unwrap();
    assert!(result.success);
    assert_eq!(result.stdout, "line1\nline2\nline3\n");
    assert_eq!(result.stderr, "");
    let action = app.apply_event(AppEvent::UpdateComplete {
        output: result,
        packages_before: None,
        packages_after: None,
    });
    match action {
        Action::Nothing => {}
        other => panic!("unexpected {:?}", other),
    }
    assert_eq!(app.update.phase, UpdatePhase::UpdateComplete);
    assert!(!app.is_executing());
    assert!(app.supervisor.active.is_none());
    assert!(app.error_message.is_none());
    let kept = app.update.output.as_ref().unwrap();
    assert!(kept.success);
    assert_eq!(kept.stdout, "line1\nline2\nline3\n\n\n[AI 分析已关闭，可在设置中开启]");
    assert_eq!(app.update.lines.last().unwrap(), "--- 更新完成 ---");
}

#[test]
fn successful_update_with_analysis_goes_on_to_the_report() {
    let mut app = App::new(Config::default_for_home("/home/test"));
    to_update_preview(&mut app);
    start_update(&mut app);
    let result = app.supervisor.finish("line1\n".to_string(), String::new(), true).unwrap();
    let action = app.apply_event(AppEvent::UpdateComplete {
        output: result,
        packages_before: Some("a 1".to_string()),
        packages_after: Some("a 2".to_string()),
    });
    match action {
        Action::Analyze { operation, prompt, refresh_count } => {
            assert_eq!(operation, Operation::Update);
            assert!(!refresh_count);
            assert!(prompt.contains("line1"));
            assert!(prompt.contains("- 包管理器: paru\n"));
            assert!(prompt.contains("更新前已安装包列表"));
        }
        other => panic!("unexpected {:?}", other),
    }
    assert_eq!(app.update.phase, UpdatePhase::Analyzing);
    assert_eq!(app.update.output.as_ref().unwrap().stdout, "line1\n");
    match app.apply_event(AppEvent::AnalysisComplete("# 报告\n内容".to_string())) {
        Action::SaveReport { operation, analysis, distro } => {
            assert_eq!(operation, Operation::Update);
            assert_eq!(analysis, "# 报告\n内容");
            assert_eq!(distro, "Linux");
        }
        other => panic!("unexpected {:?}", other),
    }
    assert_eq!(app.update.phase, UpdatePhase::AnalysisComplete);
    assert_eq!(app.update.view_mode, ViewMode::AIAnalysis);
    assert_eq!(app.update.get_content(), vec!["# 报告".to_string(), "内容".to_string()]);
    match app.apply_event(AppEvent::ReportSaved("/tmp/r.md".to_string())) {
        Action::Nothing => {}
        other => panic!("unexpected {:?}", other),
    }
    assert_eq!(app.update.report_path.as_deref(), Some("/tmp/r.md"));
}

#[test]
fn cancelled_update_is_interrupted_and_reported() {
    let mut app = app_without_analysis();
    to_update_preview(&mut app);
    start_update(&mut app);
    app.child_started(999);

    let action = app.handle_key(Key { code: KeyCode::Char('c'), ctrl: true, alt: false }, ctx(40));
    match action {
        Action::Cancel => {}
        other => panic!("unexpected {:?}", other),
    }
    assert!(app.should_quit);
    assert_eq!(app.cancel_update(40), LadderAction::Send(Signal::Interrupt));
    assert!(app.supervisor.should_cancel());
    assert_eq!(app.cancel_update(45), LadderAction::Wait);
    assert_eq!(app.poll_cancel(140, true), LadderAction::Wait);
    assert_eq!(app.poll_cancel(240, false), LadderAction::Reap);

    let result = app.supervisor.finish("partial\n".to_string(), "noise".to_string(), false).unwrap();
    assert!(!result.success);
    assert_eq!(result.stderr, "更新已取消");
    let action = app.apply_event(AppEvent::UpdateComplete {
        output: result,
        packages_before: None,
        packages_after: None,
    });
    match action {
        Action::Nothing => {}
        other => panic!("unexpected {:?}", other),
    }
    assert_eq!(app.update.phase, UpdatePhase::Error);
    assert_eq!(app.error_message.as_deref(), Some("更新已取消"));
    assert!(app.supervisor.active.is_none());
}

#[test]
fn escape_leaves_the_run_and_asks_to_cancel() {
    let mut app = app_without_analysis();
    to_update_preview(&mut app);
    start_update(&mut app);
    app.child_started(5);
    match app.handle_key(Key::plain(KeyCode::Esc), ctx(20)) {
        Action::Cancel => {}
        other => panic!("unexpected {:?}", other),
    }
    assert_eq!(app.mode, AppMode::Dashboard);
    assert!(!app.should_quit);
    assert_eq!(app.update.phase, UpdatePhase::PackageManagerCheck);
    assert!(app.update.lines.is_empty());
    assert_eq!(app.cancel_update(20), LadderAction::Send(Signal::Interrupt));
    let result = app.supervisor.finish(String::new(), String::new(), false).unwrap();
    assert_eq!(result.stderr, "更新已取消");
    app.apply_event(AppEvent::UpdateComplete {
        output: result,
        packages_before: None,
        packages_after: None,
    });
    assert_eq!(app.update.phase, UpdatePhase::PackageManagerCheck);
    assert!(app.error_message.is_none());
    assert!(app.supervisor.active.is_none());
}

#[test]
fn failed_update_shows_the_error_output() {
    let mut app = app_without_analysis();
    to_update_preview(&mut app);
    start_update(&mut app);
    let result = app
        .supervisor
        .finish(String::new(), "error: failed to synchronize\n".to_string(), false)
        .unwrap();
    app.apply_event(AppEvent::UpdateComplete {
        output: result,
        packages_before: None,
        packages_after: None,
    });
    assert_eq!(app.update.phase, UpdatePhase::Error);
    assert_eq!(app.error_message.as_deref(), Some("error: failed to synchronize\n"));
}

#[test]
fn second_start_is_refused_while_a_command_runs() {
    let mut app = app_without_analysis();
    to_update_preview(&mut app);
    start_update(&mut app);
    let handle = app.supervisor.active;
    match app.spawn_update_task() {
        Action::Nothing => {}
        other => panic!("unexpected {:?}", other),
    }
    match app.spawn_shell_task("ls -la") {
        Action::Nothing => {}
        other => panic!("unexpected {:?}", other),
    }
    assert_eq!(app.supervisor.active, handle);
    assert_eq!(app.update.phase, UpdatePhase::Updating);
}

#[test]
fn denied_privilege_ends_in_the_error_phase() {
    let mut app = app_without_analysis();
    to_update_preview(&mut app);
    match app.handle_key(Key::plain(KeyCode::Enter), ctx(10)) {
        Action::Authorize(_) => {}
        other => panic!("unexpected {:?}", other),
    }
    match app.authorization_result(Operation::Update, Authorization::Denied) {
        Action::Nothing => {}
        other => panic!("unexpected {:?}", other),
    }
    assert_eq!(app.update.phase, UpdatePhase::Error);
    assert_eq!(app.error_message.as_deref(), Some("sudo 验证失败，请确保你有 sudo 权限"));
    assert!(app.supervisor.active.is_none());

    let mut app = app_without_analysis();
    to_update_preview(&mut app);
    app.authorization_result(Operation::Update, Authorization::Failed("no tty".to_string()));
    assert_eq!(app.error_message.as_deref(), Some("sudo 验证出错: no tty"));
}

#[test]
fn completion_after_the_mode_was_left_only_releases_the_handle() {
    let mut app = app_without_analysis();
    to_update_preview(&mut app);
    start_update(&mut app);
    app.update.phase = UpdatePhase::Error;
    let lines = app.update.lines.clone();
    let result = lian::types::UpdateOutput {
        stdout: "late".to_string(),
        stderr: String::new(),
        success: true,
    };
    app.apply_event(AppEvent::UpdateComplete {
        output: result,
        packages_before: None,
        packages_after: None,
    });
    assert!(app.supervisor.active.is_none());
    assert_eq!(app.update.phase, UpdatePhase::Error);
    assert_eq!(app.update.lines, lines);
    assert!(app.update.output.is_none());
}

#[test]
fn progress_updates_overwrite_each_other() {
    let mut app = app_without_analysis();
    app.apply_event(AppEvent::UpdateLine("first".to_string()));
    app.apply_event(AppEvent::UpdateLine("PROGRESS:linux  120.3 MiB  10.0 MiB/s  00:12".to_string()));
    app.apply_event(AppEvent::UpdateLine("PROGRESS:linux  120.3 MiB  11.5 MiB/s  00:09".to_string()));
    assert_eq!(
        app.update.lines,
        vec![
            "first".to_string(),
            "PROGRESS_LINE:linux  120.3 MiB  11.5 MiB/s  00:09".to_string()
        ]
    );
    assert!(app.update.last_line_is_progress);
    assert_eq!(app.update.progress_info.label, "linux");
    assert_eq!(app.update.progress_info.speed, "11.5 MiB/s");
    assert_eq!(app.update.progress_info.eta, "00:09");
    app.apply_event(AppEvent::UpdateLine("(1/3) upgrading linux".to_string()));
    assert_eq!(app.update.lines.len(), 3);
    assert!(!app.update.last_line_is_progress);
    assert_eq!(app.update.progress_info.label, "(1/3) upgrading");
    app.apply_event(AppEvent::UpdateLine("PROGRESS:50%".to_string()));
    assert_eq!(app.update.lines.len(), 4);
    assert_eq!(app.update.scroll, 3);
}

#[test]
fn escape_outside_a_run_cancels_nothing() {
    let mut app = app_without_analysis();
    to_update_preview(&mut app);
    match app.handle_key(Key::plain(KeyCode::Esc), ctx(20)) {
        Action::Nothing => {}
        other => panic!("unexpected {:?}", other),
    }
    assert_eq!(app.mode, AppMode::Dashboard);
    assert_eq!(app.update.phase, UpdatePhase::PreviewingUpdates);
}

#[test]
fn escape_gives_up_an_analysis_under_way() {
    let mut app = App::new(Config::default_for_home("/home/test"));
    to_update_preview(&mut app);
    start_update(&mut app);
    let result = app.supervisor.finish("ok\n".to_string(), String::new(), true).unwrap();
    app.apply_event(AppEvent::UpdateComplete {
        output: result,
        packages_before: None,
        packages_after: None,
    });
    assert_eq!(app.update.phase, UpdatePhase::Analyzing);
    match app.handle_key(Key::plain(KeyCode::Esc), ctx(20)) {
        Action::Nothing => {}
        other => panic!("unexpected {:?}", other),
    }
    assert_eq!(app.update.phase, UpdatePhase::PackageManagerCheck);
    match app.apply_event(AppEvent::AnalysisComplete("late".to_string())) {
        Action::Nothing => {}
        other => panic!("unexpected {:?}", other),
    }
    assert!(app.update.analysis.is_none());
}
