use lian::app::{Action, App};
use lian::config::Config;
use lian::keys::{Context, Key, KeyCode};
use lian::settings::{find_focusable, find_selected_line, mask_value};
use lian::state::{AppMode, SettingsItem};

fn ctx(edit_is_number: bool) -> Context {
    Context { now: 0, term_height: 40, edit_is_number }
}

fn press(app: &mut App, code: KeyCode) -> Action {
    app.handle_key(Key::plain(code), ctx(true))
}

fn settings_app() -> App {
    let mut app = App::new(Config::default_for_home("/home/ann"));
    press(&mut app, KeyCode::Char('C'));
    assert_eq!(app.mode, AppMode::Settings);
    app
}

fn labels(app: &App) -> Vec<String> {
    app.settings
        .items
        .iter()
        .map(|i| match i {
            SettingsItem::Section(t) => format!("[{}]", t),
            SettingsItem::Toggle { label, key, value } => format!("{}|{}|{}", label, key, value),
            SettingsItem::TextEdit { label, key, value, masked } => {
                format!("{}|{}|{}|{}", label, key, value, masked)
            }
        })
        .collect()
}

#[test]
fn page_lists_the_configuration() {
    let app = settings_app();
    assert_eq!(
        labels(&app),
        vec![
            "[AI 分析]",
            "系统更新后自动分析|ai.update|true",
            "安装软件包后分析|ai.install|false",
            "卸载软件包后分析|ai.remove|false",
            "[AI 配置]",
            "模型|model|deepseek-reasoner|false",
            "温度|temperature|0.8|false",
            "API 地址|api_url||false",
            "API Key|api_key||true",
            "代理|proxy||false",
            "[报告]",
            "保存目录|report_dir|/home/ann/.lian/pacman|false",
        ]
    );
    assert_eq!(app.settings_focusable_count(), 9);
    assert_eq!(app.settings.selected, 0);
    assert!(!app.settings.editing);
}

#[test]
fn headings_are_skipped_by_the_selection() {
    let app = settings_app();
    assert_eq!(find_focusable(&app.settings.items, 0), Some(1));
    assert_eq!(find_focusable(&app.settings.items, 2), Some(3));
    assert_eq!(find_focusable(&app.settings.items, 3), Some(5));
    assert_eq!(find_focusable(&app.settings.items, 8), Some(11));
    assert_eq!(find_focusable(&app.settings.items, 9), None);
}

#[test]
fn selected_line_counts_the_gaps_above_headings() {
    let app = settings_app();
    assert_eq!(find_selected_line(&app.settings.items, 0), 1);
    assert_eq!(find_selected_line(&app.settings.items, 2), 3);
    assert_eq!(find_selected_line(&app.settings.items, 3), 6);
    assert_eq!(find_selected_line(&app.settings.items, 8), 13);
}

#[test]
fn switch_is_flipped_by_enter_and_space() {
    let mut app = settings_app();
    press(&mut app, KeyCode::Down);
    assert_eq!(app.settings.selected, 1);
    press(&mut app, KeyCode::Enter);
    assert!(app.config.ai.install);
    assert_eq!(labels(&app)[2], "安装软件包后分析|ai.install|true");
    press(&mut app, KeyCode::Char(' '));
    assert!(!app.config.ai.install);
    press(&mut app, KeyCode::Up);
    press(&mut app, KeyCode::Up);
    assert_eq!(app.settings.selected, 0);
    press(&mut app, KeyCode::Enter);
    assert!(!app.config.ai.update);
}

#[test]
fn selection_stops_at_the_last_row() {
    let mut app = settings_app();
    for _ in 0..20 {
        press(&mut app, KeyCode::Down);
    }
    assert_eq!(app.settings.selected, 8);
}

#[test]
fn text_field_is_edited_and_confirmed() {
    let mut app = settings_app();
    for _ in 0..3 {
        press(&mut app, KeyCode::Down);
    }
    press(&mut app, KeyCode::Enter);
    assert!(app.settings.editing);
    assert_eq!(app.settings.edit_buffer, "deepseek-reasoner");
    assert_eq!(app.settings.edit_cursor, 17);
    for _ in 0..8 {
        press(&mut app, KeyCode::Backspace);
    }
    for c in "chat".chars() {
        press(&mut app, KeyCode::Char(c));
    }
    assert_eq!(app.settings.edit_buffer, "deepseek-chat");
    assert_eq!(app.config.model, "deepseek-reasoner");
    press(&mut app, KeyCode::Enter);
    assert!(!app.settings.editing);
    assert_eq!(app.config.model, "deepseek-chat");
    assert_eq!(labels(&app)[5], "模型|model|deepseek-chat|false");
}

#[test]
fn mode_letters_are_text_while_editing() {
    let mut app = settings_app();
    for _ in 0..3 {
        press(&mut app, KeyCode::Down);
    }
    press(&mut app, KeyCode::Enter);
    press(&mut app, KeyCode::End);
    press(&mut app, KeyCode::Char('x'));
    assert_eq!(app.mode, AppMode::Settings);
    assert_eq!(app.settings.edit_buffer, "deepseek-reasonerx");
}

#[test]
fn escape_abandons_the_edit() {
    let mut app = settings_app();
    for _ in 0..3 {
        press(&mut app, KeyCode::Down);
    }
    press(&mut app, KeyCode::Enter);
    press(&mut app, KeyCode::Char('z'));
    press(&mut app, KeyCode::Esc);
    assert!(!app.settings.editing);
    assert_eq!(app.mode, AppMode::Settings);
    assert_eq!(app.config.model, "deepseek-reasoner");
    press(&mut app, KeyCode::Esc);
    assert_eq!(app.mode, AppMode::Dashboard);
}

#[test]
fn temperature_is_taken_only_as_a_number() {
    let mut app = settings_app();
    for _ in 0..4 {
        press(&mut app, KeyCode::Down);
    }
    press(&mut app, KeyCode::Enter);
    assert_eq!(app.settings.edit_buffer, "0.8");
    press(&mut app, KeyCode::Backspace);
    press(&mut app, KeyCode::Char('5'));
    app.handle_key(Key::plain(KeyCode::Enter), ctx(true));
    assert_eq!(app.config.temperature, "0.5");

    press(&mut app, KeyCode::Enter);
    press(&mut app, KeyCode::Char('x'));
    app.handle_key(Key::plain(KeyCode::Enter), ctx(false));
    assert_eq!(app.config.temperature, "0.5");
    assert!(!app.settings.editing);
}

#[test]
fn emptied_optional_field_is_unset() {
    let mut app = settings_app();
    app.config.proxy = Some("http://127.0.0.1:7890".to_string());
    app.build_settings_items();
    for _ in 0..7 {
        press(&mut app, KeyCode::Down);
    }
    press(&mut app, KeyCode::Enter);
    assert_eq!(app.settings.edit_buffer, "http://127.0.0.1:7890");
    for _ in 0..21 {
        press(&mut app, KeyCode::Backspace);
    }
    press(&mut app, KeyCode::Enter);
    assert!(app.config.proxy.is_none());
    press(&mut app, KeyCode::Up);
    press(&mut app, KeyCode::Enter);
    for c in "sk-abc".chars() {
        press(&mut app, KeyCode::Char(c));
    }
    press(&mut app, KeyCode::Enter);
    assert_eq!(app.config.api_key.as_deref(), Some("sk-abc"));
}

#[test]
fn saving_is_asked_for_and_its_outcome_shown() {
    let mut app = settings_app();
    match app.handle_key(Key { code: KeyCode::Char('s'), ctrl: true, alt: false }, ctx(true)) {
        Action::SaveSettings => {}
        other => panic!("unexpected {:?}", other),
    }
    app.settings_saved(None);
    assert_eq!(app.settings.message.as_deref(), Some("✓ 已保存到 ~/.config/lian/config.toml"));
    app.settings_saved(Some("disk full".to_string()));
    assert_eq!(app.settings.message.as_deref(), Some("✗ 保存失败: disk full"));
    press(&mut app, KeyCode::Down);
    assert!(app.settings.message.is_none());
}

#[test]
fn secrets_are_masked() {
    assert_eq!(mask_value(""), "");
    assert_eq!(mask_value("abc"), "***");
    assert_eq!(mask_value("12345678"), "********");
    assert_eq!(mask_value("123456789"), "1234****6789");
    assert_eq!(mask_value("sk-1234567890abcdef"), "sk-1****cdef");
}

#[test]
fn direct_calls_follow_the_selection() {
    let mut app = settings_app();
    app.toggle_settings_item();
    assert!(!app.config.ai.update);
    app.start_settings_edit();
    assert!(!app.settings.editing);
    app.settings.selected = 8;
    app.toggle_settings_item();
    app.start_settings_edit();
    assert!(app.settings.editing);
    assert_eq!(app.settings.edit_buffer, "/home/ann/.lian/pacman");
    app.settings.edit_buffer = "/srv/reports".to_string();
    app.confirm_settings_edit(false);
    assert_eq!(app.config.report_dir, "/srv/reports");
    assert!(!app.settings.editing);
}
