use lian::layout::{
    detail_key_cell, max_label_width, padded_key, padded_label, settings_label_cell,
    visible_window, DEFAULT_LABEL_COLUMNS, KEY_COLUMNS,
};
use lian::state::SettingsItem;

fn field(label: &str) -> SettingsItem {
    SettingsItem::TextEdit {
        label: label.to_string(),
        key: "k".to_string(),
        value: String::new(),
        masked: false,
    }
}

#[test]
fn key_is_padded_to_the_value_column() {
    assert_eq!(KEY_COLUMNS, 18);
    assert_eq!(padded_key("Name", 4), format!("Name{} ", " ".repeat(14)));
    assert_eq!(padded_key("版本", 4), format!("版本{} ", " ".repeat(14)));
    assert_eq!(padded_key("A key that is long", 18), "A key that is long ");
    assert_eq!(padded_key("A key that is longer", 20), "A key that is longer ");
}

#[test]
fn wide_characters_count_two_columns() {
    assert_eq!(detail_key_cell("Name"), format!("Name{} ", " ".repeat(14)));
    assert_eq!(detail_key_cell("安装后大小"), format!("安装后大小{} ", " ".repeat(8)));
    assert_eq!(detail_key_cell(""), " ".repeat(19));
}

#[test]
fn label_is_padded_to_the_widest() {
    assert_eq!(padded_label("模型", 4, 8), " 模型:     ");
    assert_eq!(padded_label("API Key", 7, 7), " API Key: ");
    assert_eq!(padded_label("long label", 10, 4), " long label: ");
}

#[test]
fn widest_label_is_measured_over_the_text_fields() {
    let items = vec![
        SettingsItem::Section("A very long heading indeed".to_string()),
        SettingsItem::Toggle {
            label: "A switch with a long label".to_string(),
            key: "k".to_string(),
            value: true,
        },
        field("模型"),
        field("API 地址"),
        field("代理"),
    ];
    assert_eq!(max_label_width(&items), 8);
    assert_eq!(settings_label_cell("模型", &items), " 模型:     ");
    assert_eq!(settings_label_cell("API 地址", &items), " API 地址: ");
}

#[test]
fn label_width_defaults_without_text_fields() {
    assert_eq!(DEFAULT_LABEL_COLUMNS, 10);
    let none: Vec<SettingsItem> = Vec::new();
    assert_eq!(max_label_width(&none), 10);
    let only = vec![SettingsItem::Section("x".to_string())];
    assert_eq!(max_label_width(&only), 10);
    assert_eq!(settings_label_cell("ab", &only), format!(" ab:{} ", " ".repeat(8)));
}

#[test]
fn window_follows_the_scroll_offset() {
    assert_eq!(visible_window(30, 10, 0), (0, 10));
    assert_eq!(visible_window(30, 10, 5), (5, 15));
    assert_eq!(visible_window(30, 10, 20), (20, 30));
    assert_eq!(visible_window(30, 10, 99), (20, 30));
    assert_eq!(visible_window(5, 10, 3), (0, 5));
    assert_eq!(visible_window(0, 10, 0), (0, 0));
    assert_eq!(visible_window(5, 0, 2), (2, 2));
    assert_eq!(visible_window(usize::MAX, usize::MAX, 7), (0, usize::MAX));
}
