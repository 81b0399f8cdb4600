//! The settings page: its rows, and how switching and editing them changes
//! the configuration.

use crate::app::{Action, App};
use crate::config::{AiConfig, Config};
use crate::keys::Key;
use crate::state::{SettingsItem, SettingsModeState};
use crate::text::{
    from_chars, owned, push_all, push_str, repeat, repeat_chars, same_text, slice_chars, to_chars,
};
use vstd::prelude::*;

verus! {

/// The mathematical content of a [`SettingsItem`].
pub enum ItemView {
    Section(Seq<char>),
    Toggle { label: Seq<char>, key: Seq<char>, value: bool },
    TextEdit { label: Seq<char>, key: Seq<char>, value: Seq<char>, masked: bool },
}

impl View for SettingsItem {
    type V = ItemView;

    open spec fn view(&self) -> ItemView {
        match self {
            SettingsItem::Section(t) => ItemView::Section(t@),
            SettingsItem::Toggle { label, key, value } => ItemView::Toggle {
                label: label@,
                key: key@,
                value: *value,
            },
            SettingsItem::TextEdit { label, key, value, masked } => ItemView::TextEdit {
                label: label@,
                key: key@,
                value: value@,
                masked: *masked,
            },
        }
    }
}

pub open spec fn item_views(v: Seq<SettingsItem>) -> Seq<ItemView> {
    Seq::new(v.len(), |i: int| v[i]@)
}

pub open spec fn text_or_empty(s: Option<String>) -> Seq<char> {
    match s {
        Some(t) => t@,
        None => Seq::empty(),
    }
}

/// The rows of the settings page for a configuration.
pub open spec fn settings_rows(c: Config) -> Seq<ItemView> {
    seq![
        ItemView::Section("AI 分析"@),
        ItemView::Toggle { label: "系统更新后自动分析"@, key: "ai.update"@, value: c.ai.update },
        ItemView::Toggle { label: "安装软件包后分析"@, key: "ai.install"@, value: c.ai.install },
        ItemView::Toggle { label: "卸载软件包后分析"@, key: "ai.remove"@, value: c.ai.remove },
        ItemView::Section("AI 配置"@),
        ItemView::TextEdit { label: "模型"@, key: "model"@, value: c.model@, masked: false },
        ItemView::TextEdit {
            label: "温度"@,
            key: "temperature"@,
            value: c.temperature@,
            masked: false,
        },
        ItemView::TextEdit {
            label: "API 地址"@,
            key: "api_url"@,
            value: text_or_empty(c.api_url),
            masked: false,
        },
        ItemView::TextEdit {
            label: "API Key"@,
            key: "api_key"@,
            value: text_or_empty(c.api_key),
            masked: true,
        },
        ItemView::TextEdit {
            label: "代理"@,
            key: "proxy"@,
            value: text_or_empty(c.proxy),
            masked: false,
        },
        ItemView::Section("报告"@),
        ItemView::TextEdit {
            label: "保存目录"@,
            key: "report_dir"@,
            value: c.report_dir@,
            masked: false,
        },
    ]
}

/// Whether a row can be selected: every row but a heading.
pub open spec fn focusable(item: SettingsItem) -> bool {
    !(item is Section)
}

/// The number of rows among the first `n` that can be selected.
pub open spec fn focusable_count(items: Seq<SettingsItem>, n: int) -> nat
    decreases n,
{
    if n <= 0 {
        0
    } else if focusable(items[n - 1]) {
        focusable_count(items, n - 1) + 1
    } else {
        focusable_count(items, n - 1)
    }
}

/// The index of the row that is the `n`-th of those that can be selected,
/// counted from row `from` on.
pub open spec fn nth_focusable(items: Seq<SettingsItem>, n: int, from: int) -> Option<int>
    decreases items.len() - from,
{
    if from < 0 || from >= items.len() {
        None
    } else if !focusable(items[from]) {
        nth_focusable(items, n, from + 1)
    } else if n == 0 {
        Some(from)
    } else {
        nth_focusable(items, n - 1, from + 1)
    }
}

/// The row the selection stands for.
pub open spec fn selected_row(s: SettingsModeState) -> Option<int> {
    nth_focusable(s.items@, s.selected as int, 0)
}

/// The line of the page on which the selected row is drawn: every heading
/// but one on the first row has an empty line above it.
pub open spec fn selected_line_from(items: Seq<SettingsItem>, selected: int, from: int, line: int) -> int
    decreases items.len() - from,
{
    if from < 0 || from >= items.len() {
        line
    } else if !focusable(items[from]) {
        selected_line_from(
            items,
            selected,
            from + 1,
            if from > 0 {
                line + 2
            } else {
                line + 1
            },
        )
    } else if selected == 0 {
        line
    } else {
        selected_line_from(items, selected - 1, from + 1, line + 1)
    }
}

fn is_section(item: &SettingsItem) -> (r: bool)
    ensures
        r == !focusable(*item),
{
    match item {
        SettingsItem::Section(_) => true,
        _ => false,
    }
}

/// The line of the page on which the selected row is drawn.
pub fn find_selected_line(items: &Vec<SettingsItem>, selected: usize) -> (line: usize)
    requires
        items@.len() * 2 <= usize::MAX,
    ensures
        line == selected_line_from(items@, selected as int, 0, 0),
{
    let mut line: usize = 0;
    let mut left: usize = selected;
    let mut i: usize = 0;
    while i < items.len()
        invariant
            i <= items.len(),
            line <= 2 * i,
            items@.len() * 2 <= usize::MAX,
            selected_line_from(items@, selected as int, 0, 0) == selected_line_from(
                items@,
                left as int,
                i as int,
                line as int,
            ),
        decreases items.len() - i,
    {
        if is_section(&items[i]) {
            if i > 0 {
                line += 1;
            }
            line += 1;
        } else {
            if left == 0 {
                return line;
            }
            line += 1;
            left -= 1;
        }
        i += 1;
    }
    line
}

/// A secret as it is shown: stars for a short one, else its first four
/// characters, four stars and what follows its first `n - 4` characters,
/// `n` being its length in bytes.
pub open spec fn masked_text(v: Seq<char>, bytes: nat) -> Seq<char> {
    if bytes <= 8 {
        repeat('*', bytes)
    } else {
        let head = if v.len() < 4 {
            v
        } else {
            v.subrange(0, 4)
        };
        let tail = if bytes - 4 >= v.len() {
            Seq::empty()
        } else {
            v.subrange(bytes - 4, v.len() as int)
        };
        head + "****"@ + tail
    }
}

/// Masks a secret for display.
pub fn mask_value(value: &str) -> (out: String)
    ensures
        out@ == masked_text(value@, vstd::utf8::encode_utf8(value@).len()),
{
    let n: usize = value.as_bytes().len();
    assert(n == vstd::utf8::encode_utf8(value@).len());
    if n <= 8 {
        let stars = repeat_chars('*', n);
        return from_chars(stars.as_slice());
    }
    let v = to_chars(value);
    let mut out: Vec<char> = if v.len() < 4 {
        let c = slice_chars(v.as_slice(), 0, v.len());
        assert(v@.subrange(0, v.len() as int) =~= v@);
        c
    } else {
        slice_chars(v.as_slice(), 0, 4)
    };
    push_str(&mut out, "****");
    if n - 4 < v.len() {
        let tail = slice_chars(v.as_slice(), n - 4, v.len());
        push_all(&mut out, tail.as_slice());
    } else {
        assert(out@ + Seq::<char>::empty() =~= out@);
    }
    from_chars(out.as_slice())
}

pub const SAVED_NOTE: &'static str = "✓ 已保存到 ~/.config/lian/config.toml";

pub const SAVE_FAILED: &'static str = "✗ 保存失败: ";

fn text_of(s: &Option<String>) -> (r: String)
    ensures
        r@ == text_or_empty(*s),
{
    match s {
        Some(t) => t.clone(),
        None => String::new(),
    }
}

fn some_unless_empty(s: String) -> (r: Option<String>)
    ensures
        r == if s@.len() == 0 {
            None
        } else {
            Some(s)
        },
{
    if s.as_str().unicode_len() == 0 {
        None
    } else {
        Some(s)
    }
}

/// The configuration after the switch called `key` was set to `value`.
pub open spec fn with_switch(c: Config, key: Seq<char>, value: bool) -> Config {
    if key == "ai.update"@ {
        Config { ai: AiConfig { update: value, ..c.ai }, ..c }
    } else if key == "ai.install"@ {
        Config { ai: AiConfig { install: value, ..c.ai }, ..c }
    } else if key == "ai.remove"@ {
        Config { ai: AiConfig { remove: value, ..c.ai }, ..c }
    } else {
        c
    }
}

/// The configuration after the text field called `key` was set to `text`.
/// The temperature is only taken when the text is a number.
pub open spec fn with_text(c: Config, key: Seq<char>, text: String, is_number: bool) -> Config {
    let optional = if text@.len() == 0 {
        None
    } else {
        Some(text)
    };
    if key == "model"@ {
        Config { model: text, ..c }
    } else if key == "temperature"@ {
        if is_number {
            Config { temperature: text, ..c }
        } else {
            c
        }
    } else if key == "api_url"@ {
        Config { api_url: optional, ..c }
    } else if key == "api_key"@ {
        Config { api_key: optional, ..c }
    } else if key == "proxy"@ {
        Config { proxy: optional, ..c }
    } else if key == "report_dir"@ {
        Config { report_dir: text, ..c }
    } else {
        c
    }
}

pub open spec fn toggle_post(pre: App, post: App) -> bool {
    match selected_row(pre.settings) {
        Some(i) => match pre.settings.items@[i] {
            SettingsItem::Toggle { label, key, value } => {
                &&& post.settings.items@ == pre.settings.items@.update(
                    i,
                    SettingsItem::Toggle { label, key, value: !value },
                )
                &&& post == (App {
                    config: with_switch(pre.config, key@, !value),
                    settings: SettingsModeState { items: post.settings.items, ..pre.settings },
                    ..pre
                })
            },
            _ => post == pre,
        },
        None => post == pre,
    }
}

pub open spec fn start_edit_post(pre: App, post: App) -> bool {
    match selected_row(pre.settings) {
        Some(i) => match pre.settings.items@[i] {
            SettingsItem::TextEdit { value, .. } => post == (App {
                settings: SettingsModeState {
                    edit_buffer: value,
                    edit_cursor: value@.len() as usize,
                    editing: true,
                    ..pre.settings
                },
                ..pre
            }),
            _ => post == pre,
        },
        None => post == pre,
    }
}

pub open spec fn confirm_edit_post(pre: App, is_number: bool, post: App) -> bool {
    match selected_row(pre.settings) {
        Some(i) => match pre.settings.items@[i] {
            SettingsItem::TextEdit { label, key, value, masked } => {
                &&& post.settings.items@ == pre.settings.items@.update(
                    i,
                    SettingsItem::TextEdit {
                        label,
                        key,
                        value: pre.settings.edit_buffer,
                        masked,
                    },
                )
                &&& post == (App {
                    config: with_text(pre.config, key@, pre.settings.edit_buffer, is_number),
                    settings: SettingsModeState {
                        items: post.settings.items,
                        editing: false,
                        ..pre.settings
                    },
                    ..pre
                })
            },
            _ => post == (App {
                settings: SettingsModeState { editing: false, ..pre.settings },
                ..pre
            }),
        },
        None => post == (App {
            settings: SettingsModeState { editing: false, ..pre.settings },
            ..pre
        }),
    }
}

pub fn find_focusable(items: &Vec<SettingsItem>, selected: usize) -> (r: Option<usize>)
    ensures
        match r {
            Some(i) => nth_focusable(items@, selected as int, 0) == Some(i as int) && i
                < items@.len(),
            None => nth_focusable(items@, selected as int, 0) is None,
        },
{
    let mut left: usize = selected;
    let mut i: usize = 0;
    while i < items.len()
        invariant
            i <= items.len(),
            nth_focusable(items@, selected as int, 0) == nth_focusable(
                items@,
                left as int,
                i as int,
            ),
        decreases items.len() - i,
    {
        if !is_section(&items[i]) {
            if left == 0 {
                return Some(i);
            }
            left -= 1;
        }
        i += 1;
    }
    None
}

impl App {
    /// Lays out the settings page for the configuration as it is.
    pub fn build_settings_items(&mut self)
        ensures
            item_views(final(self).settings.items@) == settings_rows(old(self).config),
            *final(self) == (App {
                settings: SettingsModeState {
                    items: final(self).settings.items,
                    selected: 0,
                    editing: false,
                    message: None,
                    scroll: 0,
                    ..old(self).settings
                },
                ..*old(self)
            }),
    {
        let mut items: Vec<SettingsItem> = Vec::new();
        items.push(SettingsItem::Section(owned("AI 分析")));
        items.push(
            SettingsItem::Toggle {
                label: owned("系统更新后自动分析"),
                key: owned("ai.update"),
                value: self.config.ai.update,
            },
        );
        items.push(
            SettingsItem::Toggle {
                label: owned("安装软件包后分析"),
                key: owned("ai.install"),
                value: self.config.ai.install,
            },
        );
        items.push(
            SettingsItem::Toggle {
                label: owned("卸载软件包后分析"),
                key: owned("ai.remove"),
                value: self.config.ai.remove,
            },
        );
        items.push(SettingsItem::Section(owned("AI 配置")));
        items.push(
            SettingsItem::TextEdit {
                label: owned("模型"),
                key: owned("model"),
                value: self.config.model.clone(),
                masked: false,
            },
        );
        items.push(
            SettingsItem::TextEdit {
                label: owned("温度"),
                key: owned("temperature"),
                value: self.config.temperature.clone(),
                masked: false,
            },
        );
        items.push(
            SettingsItem::TextEdit {
                label: owned("API 地址"),
                key: owned("api_url"),
                value: text_of(&self.config.api_url),
                masked: false,
            },
        );
        items.push(
            SettingsItem::TextEdit {
                label: owned("API Key"),
                key: owned("api_key"),
                value: text_of(&self.config.api_key),
                masked: true,
            },
        );
        items.push(
            SettingsItem::TextEdit {
                label: owned("代理"),
                key: owned("proxy"),
                value: text_of(&self.config.proxy),
                masked: false,
            },
        );
        items.push(SettingsItem::Section(owned("报告")));
        items.push(
            SettingsItem::TextEdit {
                label: owned("保存目录"),
                key: owned("report_dir"),
                value: self.config.report_dir.clone(),
                masked: false,
            },
        );
        assert(item_views(items@) =~= settings_rows(self.config));
        self.settings.items = items;
        self.settings.selected = 0;
        self.settings.editing = false;
        self.settings.message = None;
        self.settings.scroll = 0;
    }

    /// The number of rows that can be selected.
    pub fn settings_focusable_count(&self) -> (n: usize)
        ensures
            n == focusable_count(self.settings.items@, self.settings.items@.len() as int),
    {
        let mut n: usize = 0;
        let mut i: usize = 0;
        while i < self.settings.items.len()
            invariant
                i <= self.settings.items.len(),
                n <= i,
                n == focusable_count(self.settings.items@, i as int),
            decreases self.settings.items.len() - i,
        {
            if !is_section(&self.settings.items[i]) {
                n += 1;
            }
            i += 1;
        }
        n
    }

    /// Flips the selected switch, on the page and in the configuration.
    pub fn toggle_settings_item(&mut self)
        ensures
            toggle_post(*old(self), *final(self)),
    {
        match find_focusable(&self.settings.items, self.settings.selected) {
            Some(i) => {
                let flipped = match &self.settings.items[i] {
                    SettingsItem::Toggle { label, key, value } => Some(
                        (label.clone(), key.clone(), !*value),
                    ),
                    _ => None,
                };
                match flipped {
                    Some((label, key, value)) => {
                        if same_text(key.as_str(), "ai.update") {
                            self.config.ai.update = value;
                        } else if same_text(key.as_str(), "ai.install") {
                            self.config.ai.install = value;
                        } else if same_text(key.as_str(), "ai.remove") {
                            self.config.ai.remove = value;
                        }
                        self.settings.items.set(i, SettingsItem::Toggle { label, key, value });
                    },
                    None => {},
                }
            },
            None => {},
        }
    }

    /// Opens the selected text field for editing, the cursor at its end.
    pub fn start_settings_edit(&mut self)
        ensures
            start_edit_post(*old(self), *final(self)),
    {
        match find_focusable(&self.settings.items, self.settings.selected) {
            Some(i) => {
                let text = match &self.settings.items[i] {
                    SettingsItem::TextEdit { value, .. } => Some(value.clone()),
                    _ => None,
                };
                match text {
                    Some(value) => {
                        self.settings.edit_cursor = value.as_str().unicode_len();
                        self.settings.edit_buffer = value;
                        self.settings.editing = true;
                    },
                    None => {},
                }
            },
            None => {},
        }
    }

    /// Takes the edited text into the selected field and the configuration
    /// and ends the editing. `is_number` says whether the text reads as a
    /// number; a temperature that does not is shown but not configured.
    pub fn confirm_settings_edit(&mut self, is_number: bool)
        ensures
            confirm_edit_post(*old(self), is_number, *final(self)),
    {
        match find_focusable(&self.settings.items, self.settings.selected) {
            Some(i) => {
                let field = match &self.settings.items[i] {
                    SettingsItem::TextEdit { label, key, value, masked } => Some(
                        (label.clone(), key.clone(), *masked),
                    ),
                    _ => None,
                };
                match field {
                    Some((label, key, masked)) => {
                        let text = self.settings.edit_buffer.clone();
                        if same_text(key.as_str(), "model") {
                            self.config.model = text.clone();
                        } else if same_text(key.as_str(), "temperature") {
                            if is_number {
                                self.config.temperature = text.clone();
                            }
                        } else if same_text(key.as_str(), "api_url") {
                            self.config.api_url = some_unless_empty(text.clone());
                        } else if same_text(key.as_str(), "api_key") {
                            self.config.api_key = some_unless_empty(text.clone());
                        } else if same_text(key.as_str(), "proxy") {
                            self.config.proxy = some_unless_empty(text.clone());
                        } else if same_text(key.as_str(), "report_dir") {
                            self.config.report_dir = text.clone();
                        }
                        self.settings.items.set(
                            i,
                            SettingsItem::TextEdit { label, key, value: text, masked },
                        );
                    },
                    None => {},
                }
            },
            None => {},
        }
        self.settings.editing = false;
    }

    /// Takes the answer to [`Action::SaveSettings`]: `None` for success,
    /// else why it failed.
    pub fn settings_saved(&mut self, failure: Option<String>)
        ensures
            final(self).settings.message matches Some(m) && m@ == match failure {
                None => SAVED_NOTE@,
                Some(why) => SAVE_FAILED@ + why@,
            },
            *final(self) == (App {
                settings: SettingsModeState {
                    message: final(self).settings.message,
                    ..old(self).settings
                },
                ..*old(self)
            }),
    {
        let message = match failure {
            None => owned(SAVED_NOTE),
            Some(why) => {
                let mut c: Vec<char> = Vec::new();
                push_str(&mut c, SAVE_FAILED);
                push_str(&mut c, why.as_str());
                from_chars(c.as_slice())
            },
        };
        self.settings.message = Some(message);
    }
}

} // verus!
