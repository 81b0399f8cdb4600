//! The keys of the install mode.

use crate::app::{install_targets, Action, App};
use crate::debounce::{due_at, next_seq, Debouncer};
use crate::filter::{toggle_mark, toggled};
use crate::input::{apply_edit_key, changes_text, edit_spec, is_text_key};
use crate::keys::{bump, bumped, scroll_by_key, scroll_key, visible_rows, Context, Key, KeyCode};
use crate::state::{mode_content, visible_content_height, AppMode, InstallModeState, InstallPhase};
use crate::text::{blank_str, is_blank, owned, texts};
use crate::update_keys::{other_view, toggled_view};
use vstd::prelude::*;

verus! {

pub const WAITING_INSTALL: &'static str = "等待安装...";

pub const LOADING_INSTALL_PREVIEW: &'static str = "正在获取安装预览...";

/// The number of lines the install mode shows.
pub open spec fn install_total(s: InstallModeState) -> usize {
    mode_content(
        s.view_mode,
        s.output,
        texts(s.lines@),
        s.analysis,
        WAITING_INSTALL@,
    ).len() as usize
}

pub open spec fn one_up(n: usize) -> usize {
    if n > 0 {
        (n - 1) as usize
    } else {
        0
    }
}

pub open spec fn one_down(n: usize, len: nat) -> usize {
    if n + 1 < len {
        (n + 1) as usize
    } else {
        n
    }
}

/// The debouncer after the text `text` was noted at `now`.
pub open spec fn noted(pre: Debouncer, text: String, now: u64, post: Debouncer) -> bool {
    &&& post.text == text
    &&& if is_blank(text@) {
        post.deadline is None && post.issued == next_seq(pre.issued)
    } else {
        post.deadline == Some(due_at(now)) && post.issued == pre.issued
    }
}

/// The install mode after its search text changed to what `mid` holds: a
/// lookup is scheduled; a blank text instead empties the results.
pub open spec fn install_scheduled(mid: InstallModeState, now: u64, post: InstallModeState) -> bool {
    &&& noted(mid.search, mid.input, now, post.search)
    &&& if is_blank(mid.input@) {
        &&& post.results@.len() == 0
        &&& post.marked@.len() == 0
        &&& post == (InstallModeState {
            results: post.results,
            selected: 0,
            marked: post.marked,
            searching: false,
            search: post.search,
            ..mid
        })
    } else {
        post == (InstallModeState { searching: true, search: post.search, ..mid })
    }
}

/// The install mode after its search text was edited to `text` with the
/// cursor at `cursor`: a lookup is scheduled; a blank text instead empties
/// the results.
pub open spec fn install_edited(
    pre: InstallModeState,
    text: Seq<char>,
    cursor: usize,
    now: u64,
    post: InstallModeState,
) -> bool {
    &&& post.input@ == text
    &&& noted(pre.search, post.input, now, post.search)
    &&& if is_blank(text) {
        &&& post.results@.len() == 0
        &&& post.marked@.len() == 0
        &&& post == (InstallModeState {
            input: post.input,
            cursor,
            results: post.results,
            selected: 0,
            marked: post.marked,
            searching: false,
            search: post.search,
            ..pre
        })
    } else {
        post == (InstallModeState {
            input: post.input,
            cursor,
            searching: true,
            search: post.search,
            ..pre
        })
    }
}

/// The search phase after a key.
pub open spec fn install_search_post(
    pre: App,
    key: Key,
    now: u64,
    post: App,
    consumed: bool,
    action: Action,
) -> bool {
    let s = pre.install;
    match key.code {
        KeyCode::Esc => {
            &&& consumed && action is Nothing
            &&& post.install.is_new()
            &&& post == (App {
                mode: AppMode::Dashboard,
                install: post.install,
                error_message: None,
                ..pre
            })
        },
        KeyCode::Up => consumed && action is Nothing && post == (App {
            install: InstallModeState { selected: one_up(s.selected), ..s },
            ..pre
        }),
        KeyCode::Down => consumed && action is Nothing && post == (App {
            install: InstallModeState { selected: one_down(s.selected, s.results@.len()), ..s },
            ..pre
        }),
        KeyCode::Char(' ') => consumed && action is Nothing && if s.results@.len() == 0 {
            post == pre
        } else {
            &&& post.install.marked@ == toggled(s.marked@, s.selected)
            &&& post == (App {
                install: InstallModeState {
                    marked: post.install.marked,
                    selected: one_down(s.selected, s.results@.len()),
                    ..s
                },
                ..pre
            })
        },
        KeyCode::Enter => consumed && if install_targets(s).len() > 0
            && pre.package_manager is Some {
            &&& action matches Action::PreviewInstall(names) && texts(names@) == install_targets(
                s,
            )
            &&& texts(post.install.preview@) == seq![LOADING_INSTALL_PREVIEW@]
            &&& post == (App {
                install: InstallModeState {
                    phase: InstallPhase::PreviewingInstall,
                    preview: post.install.preview,
                    scroll: 0,
                    ..s
                },
                ..pre
            })
        } else {
            post == pre && action is Nothing
        },
        _ => match edit_spec(s.input@, s.cursor, key.code) {
            Some((text, cursor)) => if key.code is Char && key.ctrl {
                !consumed && action is Nothing && post == pre
            } else {
                &&& consumed && action is Nothing
                &&& post == (App { install: post.install, ..pre })
                &&& if changes_text(key.code) {
                    install_edited(s, text, cursor, now, post.install)
                } else {
                    post.install == (InstallModeState { cursor, ..s })
                }
            },
            None => !consumed && action is Nothing && post == pre,
        },
    }
}

/// The preview phase after a key. Enter is not handled here: it asks for
/// the privilege first.
pub open spec fn install_preview_post(pre: App, key: Key, post: App, consumed: bool) -> bool {
    let s = pre.install;
    match key.code {
        KeyCode::Esc => {
            &&& consumed
            &&& post.install.preview@.len() == 0
            &&& post == (App {
                install: InstallModeState {
                    phase: InstallPhase::Searching,
                    preview: post.install.preview,
                    scroll: 0,
                    ..s
                },
                ..pre
            })
        },
        KeyCode::Up => consumed && post == (App {
            install: InstallModeState { scroll: one_up(s.scroll), ..s },
            ..pre
        }),
        KeyCode::Down => consumed && post == (App {
            install: InstallModeState { scroll: bumped(s.scroll), ..s },
            ..pre
        }),
        _ => !consumed && post == pre,
    }
}

/// A phase that shows the command's output, after a key. Escape leaves a
/// run or an analysis under way for the search, asking to cancel the run;
/// after the end it leaves the mode. Tab switches between log and analysis
/// once the analysis is there.
pub open spec fn install_output_post(
    pre: App,
    key: Key,
    term_height: u16,
    post: App,
    consumed: bool,
    action: Action,
) -> bool {
    let s = pre.install;
    match key.code {
        KeyCode::Esc => consumed && match s.phase {
            InstallPhase::Installing => action is Cancel && post == (App {
                install: InstallModeState { phase: InstallPhase::Searching, scroll: 0, ..s },
                ..pre
            }),
            InstallPhase::Analyzing => action is Nothing && post == (App {
                install: InstallModeState { phase: InstallPhase::Searching, scroll: 0, ..s },
                ..pre
            }),
            _ => {
                &&& action is Nothing
                &&& post.install.is_new()
                &&& post == (App {
                    mode: AppMode::Dashboard,
                    install: post.install,
                    error_message: None,
                    ..pre
                })
            },
        },
        KeyCode::Tab if s.phase == InstallPhase::AnalysisComplete => consumed && action is Nothing
            && post == (App {
            install: InstallModeState { view_mode: other_view(s.view_mode), scroll: 0, ..s },
            ..pre
        }),
        _ => action is Nothing && match scroll_key(
            s.scroll,
            key.code,
            install_total(s),
            visible_rows(term_height),
        ) {
            Some(scroll) => consumed && post == (App {
                install: InstallModeState { scroll, ..s },
                ..pre
            }),
            None => !consumed && post == pre,
        },
    }
}

/// The install mode after a key.
pub open spec fn install_key_post(
    pre: App,
    key: Key,
    ctx: Context,
    post: App,
    consumed: bool,
    action: Action,
) -> bool {
    match pre.install.phase {
        InstallPhase::Searching => install_search_post(pre, key, ctx.now, post, consumed, action),
        InstallPhase::PreviewingInstall => action is Nothing && install_preview_post(
            pre,
            key,
            post,
            consumed,
        ),
        _ => install_output_post(pre, key, ctx.term_height, post, consumed, action),
    }
}

pub fn up_one(n: usize) -> (r: usize)
    ensures
        r == one_up(n),
{
    if n > 0 {
        n - 1
    } else {
        0
    }
}

pub fn down_one(n: usize, len: usize) -> (r: usize)
    ensures
        r == one_down(n, len as nat),
{
    if len > 0 && n < len - 1 {
        n + 1
    } else {
        n
    }
}

impl App {
    fn schedule_install_search(&mut self, now: u64)
        ensures
            install_scheduled(old(self).install, now, final(self).install),
            *final(self) == (App { install: final(self).install, ..*old(self) }),
    {
        let text = self.install.input.clone();
        let blank = blank_str(text.as_str());
        self.install.search.note_input(text, now);
        if blank {
            self.install.results = Vec::new();
            self.install.selected = 0;
            self.install.marked = Vec::new();
            self.install.searching = false;
        } else {
            self.install.searching = true;
        }
    }

    fn handle_install_search_key(&mut self, key: Key, now: u64) -> (r: (bool, Action))
        ensures
            install_search_post(*old(self), key, now, *final(self), r.0, r.1),
    {
        match key.code {
            KeyCode::Esc => {
                self.mode = AppMode::Dashboard;
                self.reset_install_state();
                (true, Action::Nothing)
            },
            KeyCode::Up => {
                self.install.selected = up_one(self.install.selected);
                (true, Action::Nothing)
            },
            KeyCode::Down => {
                self.install.selected = down_one(self.install.selected, self.install.results.len());
                (true, Action::Nothing)
            },
            KeyCode::Char(' ') => {
                if self.install.results.len() > 0 {
                    toggle_mark(&mut self.install.marked, self.install.selected);
                    self.install.selected = down_one(
                        self.install.selected,
                        self.install.results.len(),
                    );
                }
                (true, Action::Nothing)
            },
            KeyCode::Enter => {
                let packages = self.install.collect_selected_packages();
                assert(packages@.len() == texts(packages@).len());
                if packages.len() > 0 && self.package_manager.is_some() {
                    self.install.phase = InstallPhase::PreviewingInstall;
                    let mut preview: Vec<String> = Vec::new();
                    preview.push(owned(LOADING_INSTALL_PREVIEW));
                    assert(texts(preview@) =~= seq![LOADING_INSTALL_PREVIEW@]);
                    self.install.preview = preview;
                    self.install.scroll = 0;
                    (true, Action::PreviewInstall(packages))
                } else {
                    (true, Action::Nothing)
                }
            },
            _ => {
                match key.code {
                    KeyCode::Char(_) => {
                        if key.ctrl {
                            return (false, Action::Nothing);
                        }
                    },
                    _ => {},
                }
                let handled = apply_edit_key(
                    &mut self.install.input,
                    &mut self.install.cursor,
                    key.code,
                );
                if handled && is_text_key(key.code) {
                    self.schedule_install_search(now);
                }
                (handled, Action::Nothing)
            },
        }
    }

    fn handle_install_preview_key(&mut self, key: Key) -> (consumed: bool)
        ensures
            install_preview_post(*old(self), key, *final(self), consumed),
    {
        match key.code {
            KeyCode::Esc => {
                self.install.phase = InstallPhase::Searching;
                self.install.preview = Vec::new();
                self.install.scroll = 0;
                true
            },
            KeyCode::Up => {
                self.install.scroll = up_one(self.install.scroll);
                true
            },
            KeyCode::Down => {
                self.install.scroll = bump(self.install.scroll);
                true
            },
            _ => false,
        }
    }

    fn handle_install_output_key(&mut self, key: Key, term_height: u16) -> (r: (bool, Action))
        ensures
            install_output_post(*old(self), key, term_height, *final(self), r.0, r.1),
    {
        match key.code {
            KeyCode::Esc => {
                match self.install.phase {
                    InstallPhase::Installing => {
                        self.install.phase = InstallPhase::Searching;
                        self.install.scroll = 0;
                        (true, Action::Cancel)
                    },
                    InstallPhase::Analyzing => {
                        self.install.phase = InstallPhase::Searching;
                        self.install.scroll = 0;
                        (true, Action::Nothing)
                    },
                    _ => {
                        self.mode = AppMode::Dashboard;
                        self.reset_install_state();
                        (true, Action::Nothing)
                    },
                }
            },
            _ => {
                if key.code == KeyCode::Tab && self.install.phase == InstallPhase::AnalysisComplete {
                    self.install.view_mode = toggled_view(self.install.view_mode);
                    self.install.scroll = 0;
                    return (true, Action::Nothing);
                }
                let content = self.install.get_content();
                assert(content@.len() == texts(content@).len());
                let visible = visible_content_height(term_height);
                match scroll_by_key(self.install.scroll, key.code, content.len(), visible) {
                    Some(scroll) => {
                        self.install.scroll = scroll;
                        (true, Action::Nothing)
                    },
                    None => (false, Action::Nothing),
                }
            },
        }
    }

    /// Handles a key in the install mode; tells whether it was of use and
    /// what is to be done.
    pub fn handle_install_key(&mut self, key: Key, ctx: Context) -> (r: (bool, Action))
        ensures
            install_key_post(*old(self), key, ctx, *final(self), r.0, r.1),
    {
        match self.install.phase {
            InstallPhase::Searching => self.handle_install_search_key(key, ctx.now),
            InstallPhase::PreviewingInstall => {
                let consumed = self.handle_install_preview_key(key);
                (consumed, Action::Nothing)
            },
            _ => self.handle_install_output_key(key, ctx.term_height),
        }
    }
}

} // verus!
