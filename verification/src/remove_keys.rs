//! The keys of the remove mode.

use crate::app::{remove_targets, Action, App};
use crate::filter::{filter_indices, kept_marks, lowercase_of, toggle_mark, toggled};
use crate::input::{apply_edit_key, changes_text, edit_spec, is_text_key};
use crate::install_keys::{down_one, one_down, one_up, up_one};
use crate::keys::{bump, bumped, scroll_by_key, scroll_key, visible_rows, Context, Key, KeyCode};
use crate::state::{
    mode_content, visible_content_height, AppMode, RemoveModeState, RemovePhase,
};
use crate::text::{owned, texts};
use crate::types::installed_views;
use crate::update_keys::{other_view, toggled_view};
use vstd::prelude::*;

verus! {

pub const WAITING_REMOVE: &'static str = "等待卸载...";

pub const LOADING_REMOVE_PREVIEW: &'static str = "正在获取卸载预览...";

/// The number of lines the remove mode shows.
pub open spec fn remove_total(s: RemoveModeState) -> usize {
    mode_content(s.view_mode, s.output, texts(s.lines@), s.analysis, WAITING_REMOVE@).len() as usize
}

/// The remove mode after its filter text was edited to `text` with the
/// cursor at `cursor`: the filter is applied at once.
pub open spec fn remove_edited(
    pre: RemoveModeState,
    text: Seq<char>,
    cursor: usize,
    post: RemoveModeState,
) -> bool {
    &&& post.input@ == text
    &&& post.filtered@ == filter_indices(installed_views(pre.packages@), lowercase_of(text))
    &&& post.marked@ == kept_marks(pre.marked@, post.filtered@)
    &&& post == (RemoveModeState {
        input: post.input,
        cursor,
        filtered: post.filtered,
        selected: 0,
        marked: post.marked,
        ..pre
    })
}

/// The browsing phase after a key.
pub open spec fn remove_browse_post(pre: App, key: Key, post: App, consumed: bool, action: Action) -> bool {
    let s = pre.remove;
    match key.code {
        KeyCode::Esc => {
            &&& consumed && action is Nothing
            &&& post.remove.is_new()
            &&& post == (App {
                mode: AppMode::Dashboard,
                remove: post.remove,
                error_message: None,
                ..pre
            })
        },
        KeyCode::Up => consumed && action is Nothing && post == (App {
            remove: RemoveModeState { selected: one_up(s.selected), ..s },
            ..pre
        }),
        KeyCode::Down => consumed && action is Nothing && post == (App {
            remove: RemoveModeState { selected: one_down(s.selected, s.filtered@.len()), ..s },
            ..pre
        }),
        KeyCode::Char(' ') => consumed && action is Nothing && if s.selected >= s.filtered@.len() {
            post == pre
        } else {
            &&& post.remove.marked@ == toggled(s.marked@, s.filtered@[s.selected as int])
            &&& post == (App {
                remove: RemoveModeState {
                    marked: post.remove.marked,
                    selected: one_down(s.selected, s.filtered@.len()),
                    ..s
                },
                ..pre
            })
        },
        KeyCode::Enter => consumed && if s.filtered@.len() > 0 && remove_targets(s).len() > 0
            && pre.package_manager is Some {
            &&& action matches Action::PreviewRemove(names) && texts(names@) == remove_targets(s)
            &&& texts(post.remove.preview@) == seq![LOADING_REMOVE_PREVIEW@]
            &&& post == (App {
                remove: RemoveModeState {
                    phase: RemovePhase::PreviewingRemove,
                    preview: post.remove.preview,
                    scroll: 0,
                    ..s
                },
                ..pre
            })
        } else {
            post == pre && action is Nothing
        },
        _ => match edit_spec(s.input@, s.cursor, key.code) {
            Some((text, cursor)) => if key.code is Char && key.ctrl {
                !consumed && action is Nothing && post == pre
            } else {
                &&& consumed && action is Nothing
                &&& post == (App { remove: post.remove, ..pre })
                &&& if changes_text(key.code) {
                    remove_edited(s, text, cursor, post.remove)
                } else {
                    post.remove == (RemoveModeState { cursor, ..s })
                }
            },
            None => !consumed && action is Nothing && post == pre,
        },
    }
}

/// The preview phase after a key. Enter is not handled here: it asks for
/// the privilege first.
pub open spec fn remove_preview_post(pre: App, key: Key, post: App, consumed: bool) -> bool {
    let s = pre.remove;
    match key.code {
        KeyCode::Esc => {
            &&& consumed
            &&& post.remove.preview@.len() == 0
            &&& post == (App {
                remove: RemoveModeState {
                    phase: RemovePhase::Browsing,
                    preview: post.remove.preview,
                    scroll: 0,
                    ..s
                },
                ..pre
            })
        },
        KeyCode::Up => consumed && post == (App {
            remove: RemoveModeState { scroll: one_up(s.scroll), ..s },
            ..pre
        }),
        KeyCode::Down => consumed && post == (App {
            remove: RemoveModeState { scroll: bumped(s.scroll), ..s },
            ..pre
        }),
        _ => !consumed && post == pre,
    }
}

/// A phase that shows the command's output, after a key.
pub open spec fn remove_output_post(
    pre: App,
    key: Key,
    term_height: u16,
    post: App,
    consumed: bool,
    action: Action,
) -> bool {
    let s = pre.remove;
    match key.code {
        KeyCode::Esc => consumed && match s.phase {
            RemovePhase::Removing => action is Cancel && post == (App {
                remove: RemoveModeState { phase: RemovePhase::Browsing, scroll: 0, ..s },
                ..pre
            }),
            RemovePhase::Analyzing => action is Nothing && post == (App {
                remove: RemoveModeState { phase: RemovePhase::Browsing, scroll: 0, ..s },
                ..pre
            }),
            _ => {
                &&& action is Nothing
                &&& post.remove.is_new()
                &&& post == (App {
                    mode: AppMode::Dashboard,
                    remove: post.remove,
                    error_message: None,
                    ..pre
                })
            },
        },
        KeyCode::Tab if s.phase == RemovePhase::AnalysisComplete => consumed && action is Nothing
            && post == (App {
            remove: RemoveModeState { view_mode: other_view(s.view_mode), scroll: 0, ..s },
            ..pre
        }),
        _ => action is Nothing && match scroll_key(
            s.scroll,
            key.code,
            remove_total(s),
            visible_rows(term_height),
        ) {
            Some(scroll) => consumed && post == (App {
                remove: RemoveModeState { scroll, ..s },
                ..pre
            }),
            None => !consumed && post == pre,
        },
    }
}

/// The remove mode after a key.
pub open spec fn remove_key_post(
    pre: App,
    key: Key,
    ctx: Context,
    post: App,
    consumed: bool,
    action: Action,
) -> bool {
    match pre.remove.phase {
        RemovePhase::Browsing => remove_browse_post(pre, key, post, consumed, action),
        RemovePhase::PreviewingRemove => action is Nothing && remove_preview_post(
            pre,
            key,
            post,
            consumed,
        ),
        _ => remove_output_post(pre, key, ctx.term_height, post, consumed, action),
    }
}

impl App {
    fn handle_remove_browse_key(&mut self, key: Key) -> (r: (bool, Action))
        ensures
            remove_browse_post(*old(self), key, *final(self), r.0, r.1),
    {
        match key.code {
            KeyCode::Esc => {
                self.mode = AppMode::Dashboard;
                self.reset_remove_state();
                (true, Action::Nothing)
            },
            KeyCode::Up => {
                self.remove.selected = up_one(self.remove.selected);
                (true, Action::Nothing)
            },
            KeyCode::Down => {
                self.remove.selected = down_one(self.remove.selected, self.remove.filtered.len());
                (true, Action::Nothing)
            },
            KeyCode::Char(' ') => {
                if self.remove.selected < self.remove.filtered.len() {
                    let target: usize = self.remove.filtered[self.remove.selected];
                    toggle_mark(&mut self.remove.marked, target);
                    self.remove.selected = down_one(
                        self.remove.selected,
                        self.remove.filtered.len(),
                    );
                }
                (true, Action::Nothing)
            },
            KeyCode::Enter => {
                let packages = self.remove.collect_selected_packages();
                assert(packages@.len() == texts(packages@).len());
                if self.remove.filtered.len() > 0 && packages.len() > 0
                    && self.package_manager.is_some() {
                    self.remove.phase = RemovePhase::PreviewingRemove;
                    let mut preview: Vec<String> = Vec::new();
                    preview.push(owned(LOADING_REMOVE_PREVIEW));
                    assert(texts(preview@) =~= seq![LOADING_REMOVE_PREVIEW@]);
                    self.remove.preview = preview;
                    self.remove.scroll = 0;
                    (true, Action::PreviewRemove(packages))
                } else {
                    (true, Action::Nothing)
                }
            },
            _ => {
                match key.code {
                    KeyCode::Char(_) => {
                        if key.ctrl {
                            return (false, Action::Nothing);
                        }
                    },
                    _ => {},
                }
                let handled = apply_edit_key(
                    &mut self.remove.input,
                    &mut self.remove.cursor,
                    key.code,
                );
                if handled && is_text_key(key.code) {
                    self.remove.apply_filter();
                }
                (handled, Action::Nothing)
            },
        }
    }

    fn handle_remove_preview_key(&mut self, key: Key) -> (consumed: bool)
        ensures
            remove_preview_post(*old(self), key, *final(self), consumed),
    {
        match key.code {
            KeyCode::Esc => {
                self.remove.phase = RemovePhase::Browsing;
                self.remove.preview = Vec::new();
                self.remove.scroll = 0;
                true
            },
            KeyCode::Up => {
                self.remove.scroll = up_one(self.remove.scroll);
                true
            },
            KeyCode::Down => {
                self.remove.scroll = bump(self.remove.scroll);
                true
            },
            _ => false,
        }
    }

    fn handle_remove_output_key(&mut self, key: Key, term_height: u16) -> (r: (bool, Action))
        ensures
            remove_output_post(*old(self), key, term_height, *final(self), r.0, r.1),
    {
        match key.code {
            KeyCode::Esc => {
                match self.remove.phase {
                    RemovePhase::Removing => {
                        self.remove.phase = RemovePhase::Browsing;
                        self.remove.scroll = 0;
                        (true, Action::Cancel)
                    },
                    RemovePhase::Analyzing => {
                        self.remove.phase = RemovePhase::Browsing;
                        self.remove.scroll = 0;
                        (true, Action::Nothing)
                    },
                    _ => {
                        self.mode = AppMode::Dashboard;
                        self.reset_remove_state();
                        (true, Action::Nothing)
                    },
                }
            },
            _ => {
                if key.code == KeyCode::Tab && self.remove.phase == RemovePhase::AnalysisComplete {
                    self.remove.view_mode = toggled_view(self.remove.view_mode);
                    self.remove.scroll = 0;
                    return (true, Action::Nothing);
                }
                let content = self.remove.get_content();
                assert(content@.len() == texts(content@).len());
                let visible = visible_content_height(term_height);
                match scroll_by_key(self.remove.scroll, key.code, content.len(), visible) {
                    Some(scroll) => {
                        self.remove.scroll = scroll;
                        (true, Action::Nothing)
                    },
                    None => (false, Action::Nothing),
                }
            },
        }
    }

    /// Handles a key in the remove mode; tells whether it was of use and
    /// what is to be done.
    pub fn handle_remove_key(&mut self, key: Key, ctx: Context) -> (r: (bool, Action))
        ensures
            remove_key_post(*old(self), key, ctx, *final(self), r.0, r.1),
    {
        match self.remove.phase {
            RemovePhase::Browsing => self.handle_remove_browse_key(key),
            RemovePhase::PreviewingRemove => {
                let consumed = self.handle_remove_preview_key(key);
                (consumed, Action::Nothing)
            },
            _ => self.handle_remove_output_key(key, ctx.term_height),
        }
    }
}

} // verus!
