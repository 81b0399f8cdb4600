//! The keys of the settings mode.

use crate::app::{Action, App};
use crate::input::{apply_edit_key, edit_spec};
use crate::install_keys::{one_down, one_up, up_one};
use crate::keys::{Context, Key, KeyCode};
use crate::settings::{
    confirm_edit_post, find_focusable, focusable_count, selected_row, with_switch,
};
use crate::state::{AppMode, SettingsItem, SettingsModeState};
use vstd::prelude::*;

verus! {

/// The page after the selected row was activated: a switch is flipped, a
/// text field is opened for editing; the message goes away.
pub open spec fn activated(pre: App, post: App) -> bool {
    let s = pre.settings;
    let plain = App { settings: SettingsModeState { message: None, ..s }, ..pre };
    match selected_row(s) {
        Some(i) => match s.items@[i] {
            SettingsItem::Toggle { label, key, value } => {
                &&& post.settings.items@ == s.items@.update(
                    i,
                    SettingsItem::Toggle { label, key, value: !value },
                )
                &&& post == (App {
                    config: with_switch(pre.config, key@, !value),
                    settings: SettingsModeState {
                        items: post.settings.items,
                        message: None,
                        ..s
                    },
                    ..pre
                })
            },
            SettingsItem::TextEdit { value, .. } => post == (App {
                settings: SettingsModeState {
                    edit_buffer: value,
                    edit_cursor: value@.len() as usize,
                    editing: true,
                    message: None,
                    ..s
                },
                ..pre
            }),
            _ => post == plain,
        },
        None => post == plain,
    }
}

/// The page after a key while a row is selected, not edited: the arrows
/// move the selection, Enter or Space switches a switch and opens a text
/// field, Ctrl+S asks to save. Any of the first three takes the message
/// away.
pub open spec fn settings_browse_post(pre: App, key: Key, post: App, consumed: bool, action: Action) -> bool {
    let s = pre.settings;
    let total = focusable_count(s.items@, s.items@.len() as int);
    if total == 0 {
        consumed && action is Nothing && post == if key.code is Esc {
            App { mode: AppMode::Dashboard, ..pre }
        } else {
            pre
        }
    } else {
        match key.code {
            KeyCode::Esc => consumed && action is Nothing && post == (App {
                mode: AppMode::Dashboard,
                ..pre
            }),
            KeyCode::Up => consumed && action is Nothing && post == (App {
                settings: SettingsModeState { selected: one_up(s.selected), message: None, ..s },
                ..pre
            }),
            KeyCode::Down => consumed && action is Nothing && post == (App {
                settings: SettingsModeState {
                    selected: one_down(s.selected, total),
                    message: None,
                    ..s
                },
                ..pre
            }),
            KeyCode::Enter | KeyCode::Char(' ') => consumed && action is Nothing && activated(
                pre,
                post,
            ),
            KeyCode::Char('s') if key.ctrl => consumed && action is SaveSettings && post == pre,
            _ => !consumed && action is Nothing && post == pre,
        }
    }
}

/// The page after a key while a text field is edited.
pub open spec fn settings_edit_post(pre: App, key: Key, is_number: bool, post: App, consumed: bool) -> bool {
    let s = pre.settings;
    match key.code {
        KeyCode::Esc => consumed && post == (App {
            settings: SettingsModeState { editing: false, ..s },
            ..pre
        }),
        KeyCode::Enter => consumed && confirm_edit_post(pre, is_number, post),
        _ => match edit_spec(s.edit_buffer@, s.edit_cursor, key.code) {
            Some((text, cursor)) => {
                &&& consumed
                &&& post.settings.edit_buffer@ == text
                &&& post == (App {
                    settings: SettingsModeState {
                        edit_buffer: post.settings.edit_buffer,
                        edit_cursor: cursor,
                        ..s
                    },
                    ..pre
                })
            },
            None => !consumed && post == pre,
        },
    }
}

/// The settings mode after a key.
pub open spec fn settings_key_post(
    pre: App,
    key: Key,
    ctx: Context,
    post: App,
    consumed: bool,
    action: Action,
) -> bool {
    if pre.settings.editing {
        action is Nothing && settings_edit_post(pre, key, ctx.edit_is_number, post, consumed)
    } else {
        settings_browse_post(pre, key, post, consumed, action)
    }
}

impl App {
    fn handle_settings_browse_key(&mut self, key: Key) -> (r: (bool, Action))
        ensures
            settings_browse_post(*old(self), key, *final(self), r.0, r.1),
    {
        let total = self.settings_focusable_count();
        if total == 0 {
            match key.code {
                KeyCode::Esc => {
                    self.mode = AppMode::Dashboard;
                },
                _ => {},
            }
            return (true, Action::Nothing);
        }
        match key.code {
            KeyCode::Esc => {
                self.mode = AppMode::Dashboard;
                (true, Action::Nothing)
            },
            KeyCode::Up => {
                self.settings.selected = up_one(self.settings.selected);
                self.settings.message = None;
                (true, Action::Nothing)
            },
            KeyCode::Down => {
                self.settings.selected = crate::install_keys::down_one(
                    self.settings.selected,
                    total,
                );
                self.settings.message = None;
                (true, Action::Nothing)
            },
            KeyCode::Enter | KeyCode::Char(' ') => {
                match find_focusable(&self.settings.items, self.settings.selected) {
                    Some(i) => {
                        let is_toggle = match &self.settings.items[i] {
                            SettingsItem::Toggle { .. } => true,
                            _ => false,
                        };
                        if is_toggle {
                            self.toggle_settings_item();
                        } else {
                            self.start_settings_edit();
                        }
                    },
                    None => {},
                }
                self.settings.message = None;
                (true, Action::Nothing)
            },
            _ => {
                if key.code == KeyCode::Char('s') && key.ctrl {
                    (true, Action::SaveSettings)
                } else {
                    (false, Action::Nothing)
                }
            },
        }
    }

    fn handle_settings_edit_key(&mut self, key: Key, is_number: bool) -> (consumed: bool)
        ensures
            settings_edit_post(*old(self), key, is_number, *final(self), consumed),
    {
        match key.code {
            KeyCode::Esc => {
                self.settings.editing = false;
                true
            },
            KeyCode::Enter => {
                self.confirm_settings_edit(is_number);
                true
            },
            _ => apply_edit_key(
                &mut self.settings.edit_buffer,
                &mut self.settings.edit_cursor,
                key.code,
            ),
        }
    }

    /// Handles a key in the settings mode; tells whether it was of use and
    /// what is to be done.
    pub fn handle_settings_key(&mut self, key: Key, ctx: Context) -> (r: (bool, Action))
        ensures
            settings_key_post(*old(self), key, ctx, *final(self), r.0, r.1),
    {
        if self.settings.editing {
            let consumed = self.handle_settings_edit_key(key, ctx.edit_is_number);
            (consumed, Action::Nothing)
        } else {
            self.handle_settings_browse_key(key)
        }
    }
}

} // verus!
