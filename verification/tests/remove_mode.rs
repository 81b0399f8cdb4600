use lian::app::{Action, App};
use lian::catalog::{Operation, PackageManager};
use lian::config::Config;
use lian::keys::{Context, Key, KeyCode};
use lian::launch::Authorization;
use lian::state::{AppEvent, AppMode, RemovePhase};
use lian::types::{InstalledPackage, UpdateOutput};

fn ctx() -> Context {
    Context { now: 0, term_height: 40, edit_is_number: false }
}

fn press(app: &mut App, code: KeyCode) -> Action {
    app.handle_key(Key::plain(code), ctx())
}

fn nothing(a: Action) {
    match a {
        Action::Nothing => {}
        other => panic!("unexpected {:?}", other),
    }
}

fn package(name: &str, description: &str) -> InstalledPackage {
    InstalledPackage {
        name: name.to_string(),
        version: "1.0".to_string(),
        size: "1 MiB".to_string(),
        description: description.to_string(),
    }
}

fn remove_app() -> App {
    let mut app = App::new(Config::default_for_home("/home/test"));
    app.apply_event(AppEvent::PackageManagerDetected(PackageManager {
        command: "yay".to_string(),
    }));
    match press(&mut app, KeyCode::Char('R')) {
        Action::LoadInstalled => {}
        other => panic!("unexpected {:?}", other),
    }
    assert_eq!(app.mode, AppMode::Remove);
    assert!(app.remove.loading);
    nothing(app.apply_event(AppEvent::RemovePackagesLoaded(vec![
        package("firefox", "Web browser"),
        package("vim", "Editor"),
        package("nano", "Small editor"),
    ])));
    assert!(!app.remove.loading);
    assert_eq!(app.remove.filtered, vec![0, 1, 2]);
    app
}

#[test]
fn typing_filters_at_once() {
    let mut app = remove_app();
    for c in "edit".chars() {
        nothing(press(&mut app, KeyCode::Char(c)));
    }
    assert_eq!(app.remove.input, "edit");
    assert_eq!(app.remove.filtered, vec![1, 2]);
    nothing(press(&mut app, KeyCode::Char('x')));
    assert!(app.remove.filtered.is_empty());
    nothing(press(&mut app, KeyCode::Enter));
    assert_eq!(app.remove.phase, RemovePhase::Browsing);
    nothing(press(&mut app, KeyCode::Backspace));
    assert_eq!(app.remove.filtered, vec![1, 2]);
}

#[test]
fn marks_follow_the_filtered_list() {
    let mut app = remove_app();
    for c in "edit".chars() {
        press(&mut app, KeyCode::Char(c));
    }
    press(&mut app, KeyCode::Down);
    assert_eq!(app.remove.selected, 1);
    nothing(press(&mut app, KeyCode::Char(' ')));
    assert_eq!(app.remove.marked, vec![2]);
    assert_eq!(app.remove.collect_selected_packages(), vec!["nano".to_string()]);
    press(&mut app, KeyCode::Up);
    press(&mut app, KeyCode::Up);
    assert_eq!(app.remove.selected, 0);
    press(&mut app, KeyCode::Char(' '));
    assert_eq!(app.remove.marked, vec![2, 1]);
    assert_eq!(
        app.remove.collect_selected_packages(),
        vec!["nano".to_string(), "vim".to_string()]
    );
}

#[test]
fn removal_runs_after_preview_and_privilege() {
    let mut app = remove_app();
    press(&mut app, KeyCode::Down);
    match press(&mut app, KeyCode::Enter) {
        Action::PreviewRemove(names) => assert_eq!(names, vec!["vim".to_string()]),
        other => panic!("unexpected {:?}", other),
    }
    assert_eq!(app.remove.phase, RemovePhase::PreviewingRemove);
    assert_eq!(app.remove.preview, vec!["正在获取卸载预览...".to_string()]);
    nothing(app.apply_event(AppEvent::RemovePreviewReady(vec![
        "  vim 1.0".to_string(),
        String::new(),
    ])));
    match press(&mut app, KeyCode::Enter) {
        Action::Authorize(op) => assert_eq!(op, Operation::Remove),
        other => panic!("unexpected {:?}", other),
    }
    match app.authorization_result(Operation::Remove, Authorization::Granted) {
        Action::Run { operation, argv } => {
            assert_eq!(operation, Operation::Remove);
            assert_eq!(
                argv,
                vec!["yay", "-Rns", "--noconfirm", "vim"]
                    .into_iter()
                    .map(String::from)
                    .collect::<Vec<_>>()
            );
        }
        other => panic!("unexpected {:?}", other),
    }
    assert_eq!(app.remove.phase, RemovePhase::Removing);
    assert_eq!(app.remove.lines, vec!["正在卸载: vim ...".to_string()]);
    nothing(app.apply_event(AppEvent::RemoveLine("removing vim...".to_string())));
    let out = UpdateOutput { stdout: "ok".to_string(), stderr: String::new(), success: true };
    match app.apply_event(AppEvent::RemoveComplete { output: out }) {
        Action::RefreshInstalledCount => {}
        other => panic!("unexpected {:?}", other),
    }
    assert_eq!(app.remove.phase, RemovePhase::RemoveComplete);
    assert_eq!(app.remove.lines.last().unwrap(), "--- 卸载完成 ---");
    assert!(app.supervisor.active.is_none());
}

#[test]
fn denied_privilege_ends_the_removal() {
    let mut app = remove_app();
    press(&mut app, KeyCode::Enter);
    app.apply_event(AppEvent::RemovePreviewReady(vec!["a".to_string(), "b".to_string()]));
    press(&mut app, KeyCode::Enter);
    nothing(app.authorization_result(Operation::Remove, Authorization::Denied));
    assert_eq!(app.remove.phase, RemovePhase::Error);
    assert!(app.supervisor.active.is_none());
    nothing(press(&mut app, KeyCode::Esc));
    assert_eq!(app.mode, AppMode::Dashboard);
    assert!(app.error_message.is_none());
}

#[test]
fn escape_leaves_the_preview_for_the_list() {
    let mut app = remove_app();
    press(&mut app, KeyCode::Enter);
    nothing(press(&mut app, KeyCode::Esc));
    assert_eq!(app.remove.phase, RemovePhase::Browsing);
    assert!(app.remove.preview.is_empty());
    assert_eq!(app.remove.packages.len(), 3);
    nothing(press(&mut app, KeyCode::Esc));
    assert_eq!(app.mode, AppMode::Dashboard);
    assert!(app.remove.packages.is_empty());
}

#[test]
fn without_a_manager_nothing_is_loaded() {
    let mut app = App::new(Config::default_for_home("/home/test"));
    nothing(press(&mut app, KeyCode::Char('R')));
    assert_eq!(app.mode, AppMode::Remove);
    assert!(!app.remove.loading);
}
