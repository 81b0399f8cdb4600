//! The keys of the query mode.

use crate::app::{Action, App};
use crate::input::{apply_edit_key, changes_text, edit_spec, is_text_key};
use crate::install_keys::{down_one, noted, one_down, one_up, up_one};
use crate::keys::{scroll_by_key, scroll_key, visible_rows, Context, Key, KeyCode};
use crate::state::{
    visible_content_height, AppMode, FileListMode, QueryModeState, QueryPanel, QueryView,
};
use crate::text::{blank_str, is_blank};
use vstd::prelude::*;

verus! {

pub open spec fn other_panel(p: QueryPanel) -> QueryPanel {
    match p {
        QueryPanel::Local => QueryPanel::Remote,
        QueryPanel::Remote => QueryPanel::Local,
    }
}

pub open spec fn other_list(m: FileListMode) -> FileListMode {
    match m {
        FileListMode::Files => FileListMode::Directories,
        FileListMode::Directories => FileListMode::Files,
    }
}

/// The number of lines of the detail view: one per field, and for the list
/// of files or directories its heading of two lines and one line per
/// entry; with a description but no entries the heading alone.
pub open spec fn detail_lines(q: QueryModeState) -> int {
    let fields = match q.detail {
        Some(d) => d.fields@.len() as int,
        None => 0,
    };
    let entries = match q.file_mode {
        FileListMode::Files => q.files@.len() as int,
        FileListMode::Directories => q.dirs@.len() as int,
    };
    let listing: int = if entries > 0 {
        2 + entries
    } else if q.detail is Some {
        2
    } else {
        0
    };
    fields + listing
}

pub open spec fn capped(n: int) -> usize {
    if n > usize::MAX {
        usize::MAX
    } else {
        n as usize
    }
}

/// The number of lines of the detail view, as far as the machine counts.
pub fn detail_total_lines(q: &QueryModeState) -> (n: usize)
    ensures
        n == capped(detail_lines(*q)),
{
    let fields: usize = match &q.detail {
        Some(d) => d.fields.len(),
        None => 0,
    };
    let entries: usize = match q.file_mode {
        FileListMode::Files => q.files.len(),
        FileListMode::Directories => q.dirs.len(),
    };
    let listing: usize = if entries > 0 {
        if entries > usize::MAX - 2 {
            usize::MAX
        } else {
            entries + 2
        }
    } else if q.detail.is_some() {
        2
    } else {
        0
    };
    if listing > usize::MAX - fields {
        usize::MAX
    } else {
        fields + listing
    }
}

/// The query mode after its search text was edited to `text` with the
/// cursor at `cursor`: a lookup is scheduled; a blank text instead empties
/// both result lists.
pub open spec fn query_edited(
    pre: QueryModeState,
    text: Seq<char>,
    cursor: usize,
    now: u64,
    post: QueryModeState,
) -> bool {
    &&& post.input@ == text
    &&& noted(pre.search, post.input, now, post.search)
    &&& if is_blank(text) {
        &&& post.local_results@.len() == 0
        &&& post.remote_results@.len() == 0
        &&& post == (QueryModeState {
            input: post.input,
            cursor,
            local_results: post.local_results,
            remote_results: post.remote_results,
            local_selected: 0,
            remote_selected: 0,
            searching: false,
            search: post.search,
            ..pre
        })
    } else {
        post == (QueryModeState {
            input: post.input,
            cursor,
            searching: true,
            search: post.search,
            ..pre
        })
    }
}

/// The list view after a key.
pub open spec fn query_list_post(pre: App, key: Key, now: u64, post: App, action: Action) -> bool {
    let q = pre.query;
    match key.code {
        KeyCode::Esc => {
            &&& action is Nothing
            &&& post.query.is_new()
            &&& post == (App { mode: AppMode::Dashboard, query: post.query, ..pre })
        },
        KeyCode::Tab => action is Nothing && post == (App {
            query: QueryModeState { panel: other_panel(q.panel), ..q },
            ..pre
        }),
        KeyCode::Up => action is Nothing && post == (App {
            query: match q.panel {
                QueryPanel::Local => QueryModeState {
                    local_selected: one_up(q.local_selected),
                    ..q
                },
                QueryPanel::Remote => QueryModeState {
                    remote_selected: one_up(q.remote_selected),
                    ..q
                },
            },
            ..pre
        }),
        KeyCode::Down => action is Nothing && post == (App {
            query: match q.panel {
                QueryPanel::Local => QueryModeState {
                    local_selected: one_down(q.local_selected, q.local_results@.len()),
                    ..q
                },
                QueryPanel::Remote => QueryModeState {
                    remote_selected: one_down(q.remote_selected, q.remote_results@.len()),
                    ..q
                },
            },
            ..pre
        }),
        KeyCode::Enter => {
            let (list, at) = match q.panel {
                QueryPanel::Local => (q.local_results@, q.local_selected),
                QueryPanel::Remote => (q.remote_results@, q.remote_selected),
            };
            &&& post == pre
            &&& if at < list.len() && pre.package_manager is Some {
                action matches Action::LoadDetail { name, installed } && name == list[at as int].name
                    && installed == list[at as int].installed
            } else {
                action is Nothing
            }
        },
        _ => action is Nothing && match edit_spec(q.input@, q.cursor, key.code) {
            Some((text, cursor)) => if key.code is Char && (key.ctrl || key.alt) {
                post == pre
            } else {
                &&& post == (App { query: post.query, ..pre })
                &&& if changes_text(key.code) {
                    query_edited(q, text, cursor, now, post.query)
                } else {
                    post.query == (QueryModeState { cursor, ..q })
                }
            },
            None => post == pre,
        },
    }
}

/// The detail view after a key.
pub open spec fn query_detail_post(pre: App, key: Key, term_height: u16, post: App) -> bool {
    let q = pre.query;
    match key.code {
        KeyCode::Esc => {
            &&& post.query.files@.len() == 0
            &&& post.query.dirs@.len() == 0
            &&& post == (App {
                query: QueryModeState {
                    view: QueryView::List,
                    detail: None,
                    files: post.query.files,
                    dirs: post.query.dirs,
                    file_mode: FileListMode::Files,
                    detail_scroll: 0,
                    ..q
                },
                ..pre
            })
        },
        KeyCode::Tab => post == (App {
            query: QueryModeState { file_mode: other_list(q.file_mode), detail_scroll: 0, ..q },
            ..pre
        }),
        _ => match scroll_key(
            q.detail_scroll,
            key.code,
            capped(detail_lines(q)),
            visible_rows(term_height),
        ) {
            Some(scroll) => post == (App {
                query: QueryModeState { detail_scroll: scroll, ..q },
                ..pre
            }),
            None => post == pre,
        },
    }
}

/// The query mode after a key.
pub open spec fn query_key_post(pre: App, key: Key, ctx: Context, post: App, action: Action) -> bool {
    match pre.query.view {
        QueryView::List => query_list_post(pre, key, ctx.now, post, action),
        QueryView::Detail => action is Nothing && query_detail_post(
            pre,
            key,
            ctx.term_height,
            post,
        ),
    }
}

impl App {
    fn schedule_query_search(&mut self, now: u64)
        ensures
            query_edited(
                old(self).query,
                old(self).query.input@,
                old(self).query.cursor,
                now,
                final(self).query,
            ),
            final(self).query.input == old(self).query.input,
            *final(self) == (App { query: final(self).query, ..*old(self) }),
    {
        let text = self.query.input.clone();
        let blank = blank_str(text.as_str());
        self.query.search.note_input(text, now);
        if blank {
            self.query.local_results = Vec::new();
            self.query.remote_results = Vec::new();
            self.query.local_selected = 0;
            self.query.remote_selected = 0;
            self.query.searching = false;
        } else {
            self.query.searching = true;
        }
    }

    fn handle_query_list_key(&mut self, key: Key, now: u64) -> (action: Action)
        ensures
            query_list_post(*old(self), key, now, *final(self), action),
    {
        match key.code {
            KeyCode::Esc => {
                self.mode = AppMode::Dashboard;
                self.reset_query_state();
                Action::Nothing
            },
            KeyCode::Tab => {
                self.query.panel = match self.query.panel {
                    QueryPanel::Local => QueryPanel::Remote,
                    QueryPanel::Remote => QueryPanel::Local,
                };
                Action::Nothing
            },
            KeyCode::Up => {
                match self.query.panel {
                    QueryPanel::Local => {
                        self.query.local_selected = up_one(self.query.local_selected);
                    },
                    QueryPanel::Remote => {
                        self.query.remote_selected = up_one(self.query.remote_selected);
                    },
                }
                Action::Nothing
            },
            KeyCode::Down => {
                match self.query.panel {
                    QueryPanel::Local => {
                        self.query.local_selected = down_one(
                            self.query.local_selected,
                            self.query.local_results.len(),
                        );
                    },
                    QueryPanel::Remote => {
                        self.query.remote_selected = down_one(
                            self.query.remote_selected,
                            self.query.remote_results.len(),
                        );
                    },
                }
                Action::Nothing
            },
            KeyCode::Enter => {
                if self.package_manager.is_none() {
                    return Action::Nothing;
                }
                match self.query.panel {
                    QueryPanel::Local => {
                        if self.query.local_selected < self.query.local_results.len() {
                            let p = &self.query.local_results[self.query.local_selected];
                            Action::LoadDetail { name: p.name.clone(), installed: p.installed }
                        } else {
                            Action::Nothing
                        }
                    },
                    QueryPanel::Remote => {
                        if self.query.remote_selected < self.query.remote_results.len() {
                            let p = &self.query.remote_results[self.query.remote_selected];
                            Action::LoadDetail { name: p.name.clone(), installed: p.installed }
                        } else {
                            Action::Nothing
                        }
                    },
                }
            },
            _ => {
                match key.code {
                    KeyCode::Char(_) => {
                        if key.ctrl || key.alt {
                            return Action::Nothing;
                        }
                    },
                    _ => {},
                }
                let handled = apply_edit_key(
                    &mut self.query.input,
                    &mut self.query.cursor,
                    key.code,
                );
                if handled && is_text_key(key.code) {
                    self.schedule_query_search(now);
                }
                Action::Nothing
            },
        }
    }

    fn handle_query_detail_key(&mut self, key: Key, term_height: u16)
        ensures
            query_detail_post(*old(self), key, term_height, *final(self)),
    {
        match key.code {
            KeyCode::Esc => {
                self.query.view = QueryView::List;
                self.query.detail = None;
                self.query.files = Vec::new();
                self.query.dirs = Vec::new();
                self.query.file_mode = FileListMode::Files;
                self.query.detail_scroll = 0;
            },
            KeyCode::Tab => {
                self.query.file_mode = match self.query.file_mode {
                    FileListMode::Files => FileListMode::Directories,
                    FileListMode::Directories => FileListMode::Files,
                };
                self.query.detail_scroll = 0;
            },
            _ => {
                let total = detail_total_lines(&self.query);
                let visible = visible_content_height(term_height);
                match scroll_by_key(self.query.detail_scroll, key.code, total, visible) {
                    Some(scroll) => {
                        self.query.detail_scroll = scroll;
                    },
                    None => {},
                }
            },
        }
    }

    /// Handles a key in the query mode and tells what is to be done.
    pub fn handle_query_key(&mut self, key: Key, ctx: Context) -> (action: Action)
        ensures
            query_key_post(*old(self), key, ctx, *final(self), action),
    {
        match self.query.view {
            QueryView::List => self.handle_query_list_key(key, ctx.now),
            QueryView::Detail => {
                self.handle_query_detail_key(key, ctx.term_height);
                Action::Nothing
            },
        }
    }
}

} // verus!
