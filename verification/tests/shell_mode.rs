use lian::app::{Action, App};
use lian::catalog::Operation;
use lian::config::Config;
use lian::keys::{Context, Key, KeyCode};
use lian::state::{AppEvent, AppMode, ShellPhase};

fn ctx() -> Context {
    Context { now: 0, term_height: 40, edit_is_number: false }
}

fn press(app: &mut App, code: KeyCode) -> Action {
    app.handle_key(Key::plain(code), ctx())
}

fn nothing(a: Action) {
    match a {
        Action::Nothing => {}
        other => panic!("unexpected {:?}", other),
    }
}

fn shell_app() -> App {
    let mut app = App::new(Config::default_for_home("/home/test"));
    nothing(press(&mut app, KeyCode::Char('X')));
    assert_eq!(app.mode, AppMode::Shell);
    assert_eq!(app.shell.phase, ShellPhase::Input);
    app
}

fn type_text(app: &mut App, text: &str) {
    for c in text.chars() {
        nothing(press(app, KeyCode::Char(c)));
    }
}

fn run(app: &mut App, text: &str) -> Vec<String> {
    type_text(app, text);
    match press(app, KeyCode::Enter) {
        Action::Run { operation, argv } => {
            assert_eq!(operation, Operation::Custom);
            argv
        }
        other => panic!("unexpected {:?}", other),
    }
}

fn finish(app: &mut App, success: bool, stderr: &str) {
    let out = app
        .supervisor
        .finish("out\n".to_string(), stderr.to_string(), success)
        .unwrap();
    nothing(app.apply_event(AppEvent::ShellComplete { output: out }));
}

#[test]
fn command_is_cut_into_words_and_started() {
    let mut app = shell_app();
    let argv = run(&mut app, "  echo 'hello world' x ");
    assert_eq!(argv, vec!["echo".to_string(), "hello world".to_string(), "x".to_string()]);
    assert_eq!(app.shell.phase, ShellPhase::Running);
    assert_eq!(app.shell.lines, vec!["$ echo 'hello world' x".to_string(), String::new()]);
    assert_eq!(app.shell.history, vec!["echo 'hello world' x".to_string()]);
    assert!(app.supervisor.active.is_some());
    assert_eq!(app.supervisor.active.unwrap().operation, Operation::Custom);
}

#[test]
fn blank_command_is_not_started() {
    let mut app = shell_app();
    type_text(&mut app, "   ");
    nothing(press(&mut app, KeyCode::Enter));
    assert_eq!(app.shell.phase, ShellPhase::Input);
    assert!(app.shell.history.is_empty());
    assert!(app.supervisor.active.is_none());
}

#[test]
fn output_and_end_of_the_command_are_shown() {
    let mut app = shell_app();
    run(&mut app, "make");
    nothing(app.apply_event(AppEvent::ShellLine("cc main.c".to_string())));
    nothing(app.apply_event(AppEvent::ShellLine("PROGRESS:50%".to_string())));
    nothing(app.apply_event(AppEvent::ShellLine("PROGRESS:90%".to_string())));
    assert_eq!(
        app.shell.lines,
        vec![
            "$ make".to_string(),
            String::new(),
            "cc main.c".to_string(),
            "PROGRESS_LINE:90%".to_string()
        ]
    );
    finish(&mut app, false, "warning: x\n\nerror: y\n");
    assert_eq!(app.shell.phase, ShellPhase::Error);
    assert_eq!(
        app.shell.lines[4..],
        ["⚠ warning: x".to_string(), "⚠ error: y".to_string(), "─── 命令失败 ───".to_string()]
    );
    assert_eq!(app.shell.scroll, 6);
    assert!(app.supervisor.active.is_none());
    assert!(!app.shell.output.as_ref().unwrap().success);
}

#[test]
fn successful_command_closes_with_the_done_line() {
    let mut app = shell_app();
    run(&mut app, "true");
    finish(&mut app, true, "");
    assert_eq!(app.shell.phase, ShellPhase::Done);
    assert_eq!(app.shell.lines.last().unwrap(), "─── 命令完成 ───");
}

#[test]
fn escape_asks_to_cancel_the_running_command() {
    let mut app = shell_app();
    run(&mut app, "sleep 100");
    match press(&mut app, KeyCode::Esc) {
        Action::Cancel => {}
        other => panic!("unexpected {:?}", other),
    }
    assert_eq!(app.shell.phase, ShellPhase::Running);
    assert_eq!(app.mode, AppMode::Shell);
    app.cancel_update(10);
    let out = app.supervisor.finish(String::new(), "x".to_string(), true).unwrap();
    assert_eq!(out.stderr, "命令已取消");
    assert!(!out.success);
}

#[test]
fn history_is_recalled_with_the_arrows() {
    let mut app = shell_app();
    run(&mut app, "ls");
    finish(&mut app, true, "");
    nothing(press(&mut app, KeyCode::Esc));
    assert_eq!(app.shell.phase, ShellPhase::Input);
    assert!(app.shell.lines.is_empty());
    run(&mut app, "pwd");
    finish(&mut app, true, "");
    press(&mut app, KeyCode::Esc);
    run(&mut app, "pwd");
    finish(&mut app, true, "");
    press(&mut app, KeyCode::Esc);
    assert_eq!(app.shell.history, vec!["ls".to_string(), "pwd".to_string()]);

    press(&mut app, KeyCode::Up);
    assert_eq!(app.shell.input, "pwd");
    assert_eq!(app.shell.cursor, 3);
    press(&mut app, KeyCode::Up);
    assert_eq!(app.shell.input, "ls");
    press(&mut app, KeyCode::Up);
    assert_eq!(app.shell.input, "ls");
    press(&mut app, KeyCode::Down);
    assert_eq!(app.shell.input, "pwd");
    press(&mut app, KeyCode::Down);
    assert_eq!(app.shell.input, "");
    assert_eq!(app.shell.cursor, 0);
    assert!(app.shell.history_idx.is_none());
}

#[test]
fn mode_letters_are_command_text() {
    let mut app = shell_app();
    type_text(&mut app, "SUR");
    assert_eq!(app.shell.input, "SUR");
    assert_eq!(app.mode, AppMode::Shell);
    nothing(press(&mut app, KeyCode::Esc));
    assert_eq!(app.mode, AppMode::Dashboard);
}
