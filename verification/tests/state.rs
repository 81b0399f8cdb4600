use lian::progress::ProgressInfo;
use lian::state::{
    clamped, extract_action_label, get_mode_content, handle_add_line, paged_down, scroll_limit,
    scrolled_down, scrolled_up, selected_down, visible_content_height, InstallModeState,
    RemoveModeState, ShellModeState, UpdateModeState, ViewMode,
};
use lian::types::UpdateOutput;

fn strings(v: &[&str]) -> Vec<String> {
    v.iter().map(|s| s.to_string()).collect()
}

#[test]
fn action_labels() {
    assert_eq!(extract_action_label("(1/5) upgrading linux"), Some("(1/5) upgrading".to_string()));
    assert_eq!(
        extract_action_label("  ( 12/30 )   正在安装 firefox  "),
        Some("(12/30) 正在安装".to_string())
    );
    assert_eq!(extract_action_label("(1/5)"), None);
    assert_eq!(extract_action_label("(note) something"), None);
    assert_eq!(extract_action_label("upgrading (1/5) linux"), None);
    assert_eq!(extract_action_label("(1/5 upgrading"), None);
    assert_eq!(extract_action_label(""), None);
}

#[test]
fn log_lines_are_appended_and_followed() {
    let mut lines = Vec::new();
    let mut scroll = 0;
    let mut info = ProgressInfo::empty();
    let mut last = false;
    handle_add_line("one".to_string(), &mut lines, &mut scroll, &mut info, &mut last);
    assert_eq!(scroll, 0);
    handle_add_line("two".to_string(), &mut lines, &mut scroll, &mut info, &mut last);
    handle_add_line("three".to_string(), &mut lines, &mut scroll, &mut info, &mut last);
    assert_eq!(lines, strings(&["one", "two", "three"]));
    assert_eq!(scroll, 2);
    assert!(!last);
    assert!(info.is_empty());
}

#[test]
fn progress_line_is_replaced_in_place() {
    let mut lines = strings(&["start"]);
    let mut scroll = 0;
    let mut info = ProgressInfo::empty();
    let mut last = false;
    handle_add_line(
        "PROGRESS: core 1.0 MiB 2.0 MiB/s 00:01 ".to_string(),
        &mut lines,
        &mut scroll,
        &mut info,
        &mut last,
    );
    assert_eq!(lines, strings(&["start", "PROGRESS_LINE:core 1.0 MiB 2.0 MiB/s 00:01"]));
    assert!(last);
    assert_eq!(scroll, 1);
    assert_eq!(info.label, "core");
    assert_eq!(info.total_size, "1.0 MiB");
    scroll = 0;
    handle_add_line("PROGRESS:core 100%".to_string(), &mut lines, &mut scroll, &mut info, &mut last);
    assert_eq!(lines, strings(&["start", "PROGRESS_LINE:core 100%"]));
    assert_eq!(scroll, 0);
    assert_eq!(info.raw, "core 100%");
    handle_add_line("done".to_string(), &mut lines, &mut scroll, &mut info, &mut last);
    assert_eq!(lines.len(), 3);
    assert!(!last);
    assert_eq!(scroll, 2);
}

#[test]
fn action_line_sets_the_status_label() {
    let mut lines = Vec::new();
    let mut scroll = 0;
    let mut info = ProgressInfo::empty();
    let mut last = false;
    handle_add_line("(2/7) installing vim".to_string(), &mut lines, &mut scroll, &mut info, &mut last);
    assert_eq!(info.label, "(2/7) installing");
    assert_eq!(info.raw, "(2/7) installing");
    assert_eq!(lines, strings(&["(2/7) installing vim"]));
}

#[test]
fn content_in_the_log_view() {
    let none: Vec<String> = Vec::new();
    assert_eq!(
        get_mode_content(&ViewMode::UpdateLog, &None, &none, &None, "等待更新..."),
        strings(&["等待更新..."])
    );
    assert_eq!(
        get_mode_content(&ViewMode::UpdateLog, &None, &strings(&["a", "b"]), &None, "w"),
        strings(&["a", "b"])
    );
    let out = UpdateOutput {
        stdout: "x\ny\n".to_string(),
        stderr: "err".to_string(),
        success: false,
    };
    assert_eq!(
        get_mode_content(&ViewMode::UpdateLog, &Some(out), &strings(&["a"]), &None, "w"),
        strings(&["x", "y", "", "err"])
    );
}

#[test]
fn content_in_the_analysis_view() {
    let none: Vec<String> = Vec::new();
    assert_eq!(
        get_mode_content(&ViewMode::AIAnalysis, &None, &none, &None, "w"),
        strings(&["AI 分析中..."])
    );
    assert_eq!(
        get_mode_content(
            &ViewMode::AIAnalysis,
            &None,
            &none,
            &Some("# Title\n\nbody".to_string()),
            "w"
        ),
        strings(&["# Title", "", "body"])
    );
}

#[test]
fn scrolling_stays_in_range() {
    assert_eq!(scroll_limit(30, 10), 20);
    assert_eq!(scroll_limit(5, 10), 0);
    assert_eq!(scrolled_up(3, 1), 2);
    assert_eq!(scrolled_up(0, 1), 0);
    assert_eq!(scrolled_up(4, 10), 0);
    assert_eq!(scrolled_down(19, 30, 10), 20);
    assert_eq!(scrolled_down(20, 30, 10), 20);
    assert_eq!(scrolled_down(0, 5, 10), 0);
    assert_eq!(paged_down(5, 10, 30, 10), 15);
    assert_eq!(paged_down(15, 10, 30, 10), 20);
    assert_eq!(paged_down(usize::MAX, 10, 30, 10), 20);
    assert_eq!(clamped(25, 30, 10), 20);
    assert_eq!(clamped(7, 30, 10), 7);
    assert_eq!(selected_down(0, 3), 1);
    assert_eq!(selected_down(2, 3), 2);
    assert_eq!(selected_down(0, 0), 0);
}

#[test]
fn content_height_leaves_room_for_the_frame() {
    assert_eq!(visible_content_height(30), 22);
    assert_eq!(visible_content_height(8), 0);
    assert_eq!(visible_content_height(3), 0);
    assert_eq!(visible_content_height(u16::MAX), 65527);
}

#[test]
fn update_mode_scrolls() {
    let mut s = UpdateModeState::new();
    for i in 0..30 {
        s.add_line(format!("line {}", i));
    }
    assert_eq!(s.scroll, 29);
    s.clamp_scroll(30, 10);
    assert_eq!(s.scroll, 20);
    s.scroll_up();
    assert_eq!(s.scroll, 19);
    s.scroll_page_up(10);
    assert_eq!(s.scroll, 9);
    s.scroll_page_up(10);
    assert_eq!(s.scroll, 0);
    s.scroll_up();
    assert_eq!(s.scroll, 0);
    s.scroll_down(30, 10);
    assert_eq!(s.scroll, 1);
    s.scroll_page_down(10, 30, 10);
    assert_eq!(s.scroll, 11);
    s.scroll_page_down(10, 30, 10);
    assert_eq!(s.scroll, 20);
    s.scroll_down(30, 10);
    assert_eq!(s.scroll, 20);
    s.reset_scroll();
    assert_eq!(s.scroll, 0);
    assert_eq!(s.get_content().len(), 30);
}

#[test]
fn new_modes_show_their_waiting_notice() {
    assert_eq!(UpdateModeState::new().get_content(), strings(&["等待更新..."]));
    assert_eq!(InstallModeState::new().get_content(), strings(&["等待安装..."]));
    assert_eq!(RemoveModeState::new().get_content(), strings(&["等待卸载..."]));
    assert!(ShellModeState::new().get_content().is_empty());
}

#[test]
fn modes_take_lines() {
    let mut i = InstallModeState::new();
    i.add_line("a".to_string());
    i.add_line("PROGRESS:1%".to_string());
    assert_eq!(i.get_content(), strings(&["a", "PROGRESS_LINE:1%"]));
    let mut r = RemoveModeState::new();
    r.add_line("b".to_string());
    assert_eq!(r.get_content(), strings(&["b"]));
    let mut s = ShellModeState::new();
    s.add_line("c".to_string());
    s.add_line("d".to_string());
    assert_eq!(s.get_content(), strings(&["c", "d"]));
    assert_eq!(s.scroll, 1);
}
