//! The single entry points of the orchestrator: a key, a report of a
//! background task, the periodic tick.

use crate::app::{Action, App, CHECKING_UPDATES};
use crate::catalog::Operation;
use crate::debounce::{fires, next_seq, Debouncer};
use crate::events::{
    analysis_post, error_shown, manager_detected_post, report_noted, update_complete_post,
    update_preview_post,
};
use crate::install_keys::{install_key_post, install_total};
use crate::keys::{visible_rows, Context, Key, KeyCode};
use crate::query_keys::{capped, detail_lines, detail_total_lines, query_key_post};
use crate::remove_keys::{remove_key_post, remove_total};
use crate::results::{
    detail_shown, install_results_post, packages_loaded_post, query_results_post,
};
use crate::runs::{install_complete_post, remove_complete_post, shell_complete_post};
use crate::settings::{item_views, settings_rows};
use crate::settings_keys::settings_key_post;
use crate::shell_keys::shell_key_post;
use crate::state::{
    add_line_spec, clamped, max_scroll, visible_content_height, AppEvent, AppMode,
    InstallModeState, InstallPhase, QueryModeState, QueryView, RemoveModeState, RemovePhase,
    SettingsModeState, ShellModeState, ShellPhase, UpdateModeState, UpdatePhase, ViewMode,
};
use crate::text::{blank_str, is_blank, lemma_texts_push, owned, texts};
use crate::update_keys::{update_key_spec, update_total};
use crate::wellformed::{lemma_event_keeps_wf, lemma_key_keeps_wf};
use vstd::prelude::*;

verus! {

/// Whether a mode is one in which a command may run.
pub open spec fn runs_commands(mode: AppMode) -> bool {
    mode == AppMode::Update || mode == AppMode::Install || mode == AppMode::Remove || mode
        == AppMode::Shell
}

/// Whether a mode takes the letters of the mode keys as text.
pub open spec fn takes_text(mode: AppMode) -> bool {
    mode == AppMode::Shell || mode == AppMode::Install || mode == AppMode::Remove || mode
        == AppMode::Query
}

/// Whether a key is one of the mode keys: `U`, `S`, `R`, `Q`, `C`, `X`.
pub open spec fn mode_letter(code: KeyCode) -> bool {
    code == KeyCode::Char('U') || code == KeyCode::Char('S') || code == KeyCode::Char('R')
        || code == KeyCode::Char('Q') || code == KeyCode::Char('C') || code == KeyCode::Char('X')
}

/// The update mode as it is entered: new, but for the notice that the
/// updates are being looked up when they are.
pub open spec fn update_entered(u: UpdateModeState, checking: bool) -> bool {
    &&& u.phase == UpdatePhase::PackageManagerCheck
    &&& u.view_mode == ViewMode::UpdateLog
    &&& u.output is None
    &&& texts(u.lines@) == if checking {
        seq![CHECKING_UPDATES@]
    } else {
        Seq::empty()
    }
    &&& u.progress@.len() == 0
    &&& u.progress_info@ == crate::progress::progress_of(Seq::empty())
    &&& !u.last_line_is_progress
    &&& u.packages_before is None
    &&& u.packages_after is None
    &&& u.analysis is None
    &&& u.scroll == 0
    &&& u.report_path is None
    &&& u.preview@.len() == 0
}

/// The application after a key of the mode it is in.
pub open spec fn mode_key_post(pre: App, key: Key, ctx: Context, post: App, action: Action) -> bool {
    match pre.mode {
        AppMode::Dashboard => post == pre && action is Nothing,
        AppMode::Update => if key.code is Enter && pre.update.phase
            == UpdatePhase::PreviewingUpdates {
            post == pre && if pre.update.preview@.len() > 0 {
                action matches Action::Authorize(op) && op == Operation::Update
            } else {
                action is Nothing
            }
        } else {
            action is Nothing && post == (App {
                update: update_key_spec(pre.update, key, ctx.term_height).0,
                ..pre
            })
        },
        AppMode::Install => if key.code is Enter && pre.install.phase
            == InstallPhase::PreviewingInstall && pre.install.preview@.len() > 1 {
            post == pre && (action matches Action::Authorize(op) && op == Operation::Install)
        } else {
            install_key_post(pre, key, ctx, post, true, action) || install_key_post(
                pre,
                key,
                ctx,
                post,
                false,
                action,
            )
        },
        AppMode::Remove => if key.code is Enter && pre.remove.phase
            == RemovePhase::PreviewingRemove && pre.remove.preview@.len() > 1 {
            post == pre && (action matches Action::Authorize(op) && op == Operation::Remove)
        } else {
            remove_key_post(pre, key, ctx, post, true, action) || remove_key_post(
                pre,
                key,
                ctx,
                post,
                false,
                action,
            )
        },
        AppMode::Query => query_key_post(pre, key, ctx, post, action),
        AppMode::Settings => settings_key_post(pre, key, ctx, post, true, action)
            || settings_key_post(pre, key, ctx, post, false, action),
        AppMode::Shell => shell_key_post(pre, key, ctx, post, true, action) || shell_key_post(
            pre,
            key,
            ctx,
            post,
            false,
            action,
        ),
    }
}

/// The application after a mode key pressed outside the modes that take it
/// as text: the mode is entered anew, unless it is open already; the
/// settings page is laid out anew in any case.
pub open spec fn mode_switch_post(pre: App, code: KeyCode, post: App, action: Action) -> bool {
    if code == KeyCode::Char('U') {
        if pre.mode == AppMode::Update {
            post == pre && action is Nothing
        } else {
            &&& update_entered(post.update, pre.package_manager is Some)
            &&& post == (App {
                mode: AppMode::Update,
                update: post.update,
                error_message: None,
                ..pre
            })
            &&& if pre.package_manager is Some {
                action is CheckUpdates
            } else {
                action is Nothing
            }
        }
    } else if code == KeyCode::Char('S') {
        action is Nothing && if pre.mode == AppMode::Install {
            post == pre
        } else {
            post.install.is_new() && post == (App {
                mode: AppMode::Install,
                install: post.install,
                error_message: None,
                ..pre
            })
        }
    } else if code == KeyCode::Char('R') {
        if pre.mode == AppMode::Remove {
            post == pre && action is Nothing
        } else {
            &&& (RemoveModeState { loading: false, ..post.remove }).is_new()
            &&& post.remove.loading == (pre.package_manager is Some)
            &&& post == (App {
                mode: AppMode::Remove,
                remove: post.remove,
                error_message: None,
                ..pre
            })
            &&& if pre.package_manager is Some {
                action is LoadInstalled
            } else {
                action is Nothing
            }
        }
    } else if code == KeyCode::Char('Q') {
        action is Nothing && if pre.mode == AppMode::Query {
            post == pre
        } else {
            post.query.is_new() && post == (App { mode: AppMode::Query, query: post.query, ..pre })
        }
    } else if code == KeyCode::Char('C') {
        &&& action is Nothing
        &&& item_views(post.settings.items@) == settings_rows(pre.config)
        &&& post == (App {
            mode: AppMode::Settings,
            settings: SettingsModeState {
                items: post.settings.items,
                selected: 0,
                editing: false,
                message: None,
                scroll: 0,
                ..pre.settings
            },
            ..pre
        })
    } else {
        action is Nothing && if pre.mode == AppMode::Shell {
            post == pre
        } else {
            &&& crate::app::shell_reset(pre.shell, post.shell)
            &&& post == (App {
                mode: AppMode::Shell,
                shell: post.shell,
                error_message: None,
                ..pre
            })
        }
    }
}

/// The application after a key.
///
/// * `q` on the dashboard and Ctrl+C anywhere quit; Ctrl+C in a mode that
///   runs commands also asks to cancel the command.
/// * Escape leaves the update mode for the dashboard; a run or an analysis
///   under way is given up, the mode returns to its first phase and the run
///   is to be cancelled. In the other modes the mode decides.
/// * A mode key switches the mode, except where it is text.
/// * Every other key goes to the mode.
pub open spec fn key_post(pre: App, key: Key, ctx: Context, post: App, action: Action) -> bool {
    if key.code == KeyCode::Char('q') && pre.mode == AppMode::Dashboard {
        post == (App { should_quit: true, ..pre }) && action is Nothing
    } else if key.code == KeyCode::Char('c') && key.ctrl {
        post == (App { should_quit: true, ..pre }) && if runs_commands(pre.mode) {
            action is Cancel
        } else {
            action is Nothing
        }
    } else if key.code is Esc {
        match pre.mode {
            AppMode::Update => if pre.update.phase == UpdatePhase::Updating || pre.update.phase
                == UpdatePhase::Analyzing {
                &&& post.update.is_new()
                &&& post == (App {
                    mode: AppMode::Dashboard,
                    update: post.update,
                    error_message: None,
                    ..pre
                })
                &&& if pre.update.phase == UpdatePhase::Updating {
                    action is Cancel
                } else {
                    action is Nothing
                }
            } else {
                action is Nothing && post == (App {
                    mode: AppMode::Dashboard,
                    update: UpdateModeState { scroll: 0, ..pre.update },
                    ..pre
                })
            },
            _ => mode_key_post(pre, Key { code: KeyCode::Esc, ctrl: false, alt: false }, ctx, post, action),
        }
    } else if mode_letter(key.code) && !takes_text(pre.mode) {
        mode_switch_post(pre, key.code, post, action)
    } else {
        mode_key_post(pre, key, ctx, post, action)
    }
}

fn is_mode_letter(code: KeyCode) -> (r: bool)
    ensures
        r == mode_letter(code),
{
    code == KeyCode::Char('U') || code == KeyCode::Char('S') || code == KeyCode::Char('R')
        || code == KeyCode::Char('Q') || code == KeyCode::Char('C') || code == KeyCode::Char('X')
}

impl App {
    fn handle_mode_key(&mut self, key: Key, ctx: Context) -> (action: Action)
        ensures
            mode_key_post(*old(self), key, ctx, *final(self), action),
    {
        match self.mode {
            AppMode::Dashboard => Action::Nothing,
            AppMode::Update => {
                if key.code == KeyCode::Enter && self.update.phase
                    == UpdatePhase::PreviewingUpdates {
                    if self.update.preview.len() > 0 {
                        Action::Authorize(Operation::Update)
                    } else {
                        Action::Nothing
                    }
                } else {
                    let _ = self.handle_update_key(key, ctx.term_height);
                    Action::Nothing
                }
            },
            AppMode::Install => {
                if key.code == KeyCode::Enter && self.install.phase
                    == InstallPhase::PreviewingInstall && self.install.preview.len() > 1 {
                    Action::Authorize(Operation::Install)
                } else {
                    let r = self.handle_install_key(key, ctx);
                    r.1
                }
            },
            AppMode::Remove => {
                if key.code == KeyCode::Enter && self.remove.phase
                    == RemovePhase::PreviewingRemove && self.remove.preview.len() > 1 {
                    Action::Authorize(Operation::Remove)
                } else {
                    let r = self.handle_remove_key(key, ctx);
                    r.1
                }
            },
            AppMode::Query => self.handle_query_key(key, ctx),
            AppMode::Settings => {
                let r = self.handle_settings_key(key, ctx);
                r.1
            },
            AppMode::Shell => {
                let r = self.handle_shell_key(key, ctx);
                r.1
            },
        }
    }

    fn switch_mode(&mut self, code: KeyCode) -> (action: Action)
        requires
            mode_letter(code),
        ensures
            mode_switch_post(*old(self), code, *final(self), action),
    {
        if code == KeyCode::Char('U') {
            if self.mode == AppMode::Update {
                return Action::Nothing;
            }
            self.mode = AppMode::Update;
            self.reset_update_state();
            if self.package_manager.is_some() {
                let line = owned(CHECKING_UPDATES);
                proof {
                    lemma_texts_push(self.update.lines@, line);
                    assert(texts(self.update.lines@) =~= Seq::<Seq<char>>::empty());
                }
                self.update.lines.push(line);
                assert(texts(self.update.lines@) =~= seq![CHECKING_UPDATES@]);
                Action::CheckUpdates
            } else {
                assert(texts(self.update.lines@) =~= Seq::<Seq<char>>::empty());
                Action::Nothing
            }
        } else if code == KeyCode::Char('S') {
            if self.mode != AppMode::Install {
                self.mode = AppMode::Install;
                self.reset_install_state();
            }
            Action::Nothing
        } else if code == KeyCode::Char('R') {
            if self.mode == AppMode::Remove {
                return Action::Nothing;
            }
            self.mode = AppMode::Remove;
            self.reset_remove_state();
            if self.package_manager.is_some() {
                self.remove.loading = true;
                Action::LoadInstalled
            } else {
                Action::Nothing
            }
        } else if code == KeyCode::Char('Q') {
            if self.mode != AppMode::Query {
                self.mode = AppMode::Query;
                self.reset_query_state();
            }
            Action::Nothing
        } else if code == KeyCode::Char('C') {
            self.mode = AppMode::Settings;
            self.build_settings_items();
            Action::Nothing
        } else {
            if self.mode != AppMode::Shell {
                self.mode = AppMode::Shell;
                self.reset_shell_state();
            }
            Action::Nothing
        }
    }

    /// Takes a key and tells what is to be done.
    pub fn handle_key(&mut self, key: Key, ctx: Context) -> (action: Action)
        ensures
            key_post(*old(self), key, ctx, *final(self), action),
            old(self).wf() ==> final(self).wf(),
    {
        let action = self.key_step(key, ctx);
        proof {
            if old(self).wf() {
                lemma_key_keeps_wf(*old(self), key, ctx, *self, action);
            }
        }
        action
    }

    fn key_step(&mut self, key: Key, ctx: Context) -> (action: Action)
        ensures
            key_post(*old(self), key, ctx, *final(self), action),
    {
        if key.code == KeyCode::Char('q') && self.mode == AppMode::Dashboard {
            self.should_quit = true;
            return Action::Nothing;
        }
        if key.code == KeyCode::Char('c') && key.ctrl {
            self.should_quit = true;
            let running = self.mode == AppMode::Update || self.mode == AppMode::Install
                || self.mode == AppMode::Remove || self.mode == AppMode::Shell;
            return if running {
                Action::Cancel
            } else {
                Action::Nothing
            };
        }
        match key.code {
            KeyCode::Esc => {
                return match self.mode {
                    AppMode::Update => {
                        self.mode = AppMode::Dashboard;
                        match self.update.phase {
                            UpdatePhase::Updating => {
                                self.reset_update_state();
                                Action::Cancel
                            },
                            UpdatePhase::Analyzing => {
                                self.reset_update_state();
                                Action::Nothing
                            },
                            _ => {
                                self.update.reset_scroll();
                                Action::Nothing
                            },
                        }
                    },
                    _ => self.handle_mode_key(Key::plain(KeyCode::Esc), ctx),
                };
            },
            _ => {},
        }
        let text_mode = self.mode == AppMode::Shell || self.mode == AppMode::Install || self.mode
            == AppMode::Remove || self.mode == AppMode::Query;
        if is_mode_letter(key.code) && !text_mode {
            self.switch_mode(key.code)
        } else {
            self.handle_mode_key(key, ctx)
        }
    }
}

// ---------------------------------------------------------------------------
// The tick
// ---------------------------------------------------------------------------

/// The scroll offset of the open mode brought back into what its display
/// allows.
pub open spec fn clamp_post(pre: App, term_height: u16, post: App) -> bool {
    let visible = visible_rows(term_height);
    match pre.mode {
        AppMode::Update => post == (App {
            update: UpdateModeState {
                scroll: limited(pre.update.scroll, update_total(pre.update), visible),
                ..pre.update
            },
            ..pre
        }),
        AppMode::Query => if pre.query.view == QueryView::Detail {
            post == (App {
                query: QueryModeState {
                    detail_scroll: limited(
                        pre.query.detail_scroll,
                        capped(detail_lines(pre.query)),
                        visible,
                    ),
                    ..pre.query
                },
                ..pre
            })
        } else {
            post == pre
        },
        AppMode::Install => match pre.install.phase {
            InstallPhase::Searching => post == pre,
            InstallPhase::PreviewingInstall => post == (App {
                install: InstallModeState {
                    scroll: limited(
                        pre.install.scroll,
                        pre.install.preview@.len() as usize,
                        visible,
                    ),
                    ..pre.install
                },
                ..pre
            }),
            _ => post == (App {
                install: InstallModeState {
                    scroll: limited(pre.install.scroll, install_total(pre.install), visible),
                    ..pre.install
                },
                ..pre
            }),
        },
        AppMode::Remove => match pre.remove.phase {
            RemovePhase::Browsing => post == pre,
            RemovePhase::PreviewingRemove => post == (App {
                remove: RemoveModeState {
                    scroll: limited(pre.remove.scroll, pre.remove.preview@.len() as usize, visible),
                    ..pre.remove
                },
                ..pre
            }),
            _ => post == (App {
                remove: RemoveModeState {
                    scroll: limited(pre.remove.scroll, remove_total(pre.remove), visible),
                    ..pre.remove
                },
                ..pre
            }),
        },
        AppMode::Shell => if pre.shell.phase == ShellPhase::Input {
            post == pre
        } else {
            post == (App {
                shell: ShellModeState {
                    scroll: limited(pre.shell.scroll, pre.shell.lines@.len() as usize, visible),
                    ..pre.shell
                },
                ..pre
            })
        },
        _ => post == pre,
    }
}

pub open spec fn limited(scroll: usize, total: usize, visible: usize) -> usize {
    if scroll > max_scroll(total, visible) {
        max_scroll(total, visible)
    } else {
        scroll
    }
}

/// The lookup a debouncer hands out at `now`, if one is due, worth asking
/// only when its keyword is not blank and a package manager is known.
pub open spec fn lookup_due(d: Debouncer, now: u64, has_manager: bool) -> bool {
    fires(d, now) && !is_blank(d.text@) && has_manager
}

pub open spec fn after_tick(pre: Debouncer, now: u64, post: Debouncer) -> bool {
    if fires(pre, now) {
        post == (Debouncer { deadline: None, issued: next_seq(pre.issued), ..pre })
    } else {
        post == pre
    }
}

/// The periodic check of the two debounced searches.
pub open spec fn tick_post(pre: App, now: u64, post: App, query: Action, install: Action) -> bool {
    &&& after_tick(pre.query.search, now, post.query.search)
    &&& after_tick(pre.install.search, now, post.install.search)
    &&& post == (App {
        query: QueryModeState { search: post.query.search, ..pre.query },
        install: InstallModeState { search: post.install.search, ..pre.install },
        ..pre
    })
    &&& if lookup_due(pre.query.search, now, pre.package_manager is Some) {
        query matches Action::Search { keyword, seq } && keyword@ == pre.query.search.text@ && seq
            == post.query.search.issued
    } else {
        query is Nothing
    }
    &&& if lookup_due(pre.install.search, now, pre.package_manager is Some) {
        install matches Action::SearchRemote { keyword, seq } && keyword@
            == pre.install.search.text@ && seq == post.install.search.issued
    } else {
        install is Nothing
    }
}

impl App {
    /// Brings the scroll offset of the open mode back into range for a
    /// terminal of `term_height` rows.
    pub fn clamp_scroll(&mut self, term_height: u16)
        ensures
            clamp_post(*old(self), term_height, *final(self)),
    {
        let visible = visible_content_height(term_height);
        match self.mode {
            AppMode::Update => {
                let content = self.update.get_content();
                assert(content@.len() == texts(content@).len());
                self.update.scroll = clamped(self.update.scroll, content.len(), visible);
            },
            AppMode::Query => {
                if self.query.view == QueryView::Detail {
                    let total = detail_total_lines(&self.query);
                    self.query.detail_scroll = clamped(self.query.detail_scroll, total, visible);
                }
            },
            AppMode::Install => match self.install.phase {
                InstallPhase::Searching => {},
                InstallPhase::PreviewingInstall => {
                    self.install.scroll = clamped(
                        self.install.scroll,
                        self.install.preview.len(),
                        visible,
                    );
                },
                _ => {
                    let content = self.install.get_content();
                    assert(content@.len() == texts(content@).len());
                    self.install.scroll = clamped(self.install.scroll, content.len(), visible);
                },
            },
            AppMode::Remove => match self.remove.phase {
                RemovePhase::Browsing => {},
                RemovePhase::PreviewingRemove => {
                    self.remove.scroll = clamped(
                        self.remove.scroll,
                        self.remove.preview.len(),
                        visible,
                    );
                },
                _ => {
                    let content = self.remove.get_content();
                    assert(content@.len() == texts(content@).len());
                    self.remove.scroll = clamped(self.remove.scroll, content.len(), visible);
                },
            },
            AppMode::Shell => {
                if self.shell.phase != ShellPhase::Input {
                    self.shell.scroll = clamped(self.shell.scroll, self.shell.lines.len(), visible);
                }
            },
            _ => {},
        }
    }

    /// The periodic tick at time `now`: hands out the searches whose quiet
    /// interval is over, the query mode's first, the install mode's second.
    pub fn tick(&mut self, now: u64) -> (r: (Action, Action))
        ensures
            tick_post(*old(self), now, *final(self), r.0, r.1),
            old(self).wf() ==> final(self).wf(),
    {
        let has_manager = self.package_manager.is_some();
        let query = match self.query.search.tick(now) {
            Some(q) => {
                if !blank_str(q.keyword.as_str()) && has_manager {
                    Action::Search { keyword: q.keyword, seq: q.seq }
                } else {
                    Action::Nothing
                }
            },
            None => Action::Nothing,
        };
        let install = match self.install.search.tick(now) {
            Some(q) => {
                if !blank_str(q.keyword.as_str()) && has_manager {
                    Action::SearchRemote { keyword: q.keyword, seq: q.seq }
                } else {
                    Action::Nothing
                }
            },
            None => Action::Nothing,
        };
        (query, install)
    }
}

// ---------------------------------------------------------------------------
// Reports of background tasks
// ---------------------------------------------------------------------------

/// The application after the report of a background task.
pub open spec fn event_post(pre: App, event: AppEvent, post: App, action: Action) -> bool {
    match event {
        AppEvent::PackageManagerDetected(pm) => manager_detected_post(pre, pm, post, action),
        AppEvent::SystemInfoDetected(info) => action is Nothing && post == (App {
            system_info: Some(info),
            ..pre
        }),
        AppEvent::InstalledCount(n) => action is Nothing && post == (App {
            installed_count: Some(n),
            ..pre
        }),
        AppEvent::UpdateLine(line) => {
            &&& action is Nothing
            &&& post.update.log_view() == add_line_spec(line@, pre.update.log_view())
            &&& post == (App {
                update: UpdateModeState {
                    lines: post.update.lines,
                    scroll: post.update.scroll,
                    progress_info: post.update.progress_info,
                    last_line_is_progress: post.update.last_line_is_progress,
                    ..pre.update
                },
                ..pre
            })
        },
        AppEvent::InstallLine(line) => {
            &&& action is Nothing
            &&& post.install.log_view() == add_line_spec(line@, pre.install.log_view())
            &&& post == (App {
                install: InstallModeState {
                    lines: post.install.lines,
                    scroll: post.install.scroll,
                    progress_info: post.install.progress_info,
                    last_line_is_progress: post.install.last_line_is_progress,
                    ..pre.install
                },
                ..pre
            })
        },
        AppEvent::RemoveLine(line) => {
            &&& action is Nothing
            &&& post.remove.log_view() == add_line_spec(line@, pre.remove.log_view())
            &&& post == (App {
                remove: RemoveModeState {
                    lines: post.remove.lines,
                    scroll: post.remove.scroll,
                    progress_info: post.remove.progress_info,
                    last_line_is_progress: post.remove.last_line_is_progress,
                    ..pre.remove
                },
                ..pre
            })
        },
        AppEvent::ShellLine(line) => {
            &&& action is Nothing
            &&& post.shell.log_view() == add_line_spec(line@, pre.shell.log_view())
            &&& post == (App {
                shell: ShellModeState {
                    lines: post.shell.lines,
                    scroll: post.shell.scroll,
                    progress_info: post.shell.progress_info,
                    last_line_is_progress: post.shell.last_line_is_progress,
                    ..pre.shell
                },
                ..pre
            })
        },
        AppEvent::UpdateComplete { output, packages_before, packages_after } => update_complete_post(
            pre,
            output,
            packages_before,
            packages_after,
            post,
            action,
        ),
        AppEvent::InstallComplete { output } => install_complete_post(pre, output, post, action),
        AppEvent::RemoveComplete { output } => remove_complete_post(pre, output, post, action),
        AppEvent::ShellComplete { output } => action is Nothing && shell_complete_post(
            pre,
            output,
            post,
        ),
        AppEvent::AnalysisComplete(a) => analysis_post(pre, Operation::Update, a, post, action),
        AppEvent::InstallAnalysisComplete(a) => analysis_post(
            pre,
            Operation::Install,
            a,
            post,
            action,
        ),
        AppEvent::RemoveAnalysisComplete(a) => analysis_post(
            pre,
            Operation::Remove,
            a,
            post,
            action,
        ),
        AppEvent::QueryLocalResults { results, seq } => {
            &&& action is Nothing
            &&& query_results_post(pre.query, true, results, seq, post.query)
            &&& post == (App { query: post.query, ..pre })
        },
        AppEvent::QueryRemoteResults { results, seq } => {
            &&& action is Nothing
            &&& query_results_post(pre.query, false, results, seq, post.query)
            &&& post == (App { query: post.query, ..pre })
        },
        AppEvent::InstallSearchResults { results, seq } => {
            &&& action is Nothing
            &&& install_results_post(pre.install, results, seq, post.install)
            &&& post == (App { install: post.install, ..pre })
        },
        AppEvent::UpdatePreviewReady(updates) => action is Nothing && update_preview_post(
            pre,
            updates,
            post,
        ),
        AppEvent::InstallPreviewReady(preview) => action is Nothing && post == (App {
            install: InstallModeState { preview, scroll: 0, ..pre.install },
            ..pre
        }),
        AppEvent::RemovePreviewReady(preview) => action is Nothing && post == (App {
            remove: RemoveModeState { preview, scroll: 0, ..pre.remove },
            ..pre
        }),
        AppEvent::RemovePackagesLoaded(packages) => action is Nothing && packages_loaded_post(
            pre,
            packages,
            post,
        ),
        AppEvent::QueryDetailLoaded { detail, files, dirs } => action is Nothing && post
            == detail_shown(pre, detail, files, dirs),
        AppEvent::ReportSaved(path) => action is Nothing && post == report_noted(pre, path),
        AppEvent::Error(msg) => action is Nothing && post == error_shown(pre, msg),
    }
}

impl App {
    /// Applies the report of a background task and tells what is to be
    /// done next.
    pub fn apply_event(&mut self, event: AppEvent) -> (action: Action)
        ensures
            event_post(*old(self), event, *final(self), action),
            old(self).wf() ==> final(self).wf(),
    {
        let ghost given = event;
        let action = self.event_step(event);
        proof {
            if old(self).wf() {
                lemma_event_keeps_wf(*old(self), given, *self, action);
            }
        }
        action
    }

    fn event_step(&mut self, event: AppEvent) -> (action: Action)
        ensures
            event_post(*old(self), event, *final(self), action),
    {
        match event {
            AppEvent::PackageManagerDetected(pm) => self.on_manager_detected(pm),
            AppEvent::SystemInfoDetected(info) => {
                self.on_system_info(info);
                Action::Nothing
            },
            AppEvent::InstalledCount(n) => {
                self.on_installed_count(n);
                Action::Nothing
            },
            AppEvent::UpdateLine(line) => {
                self.on_update_line(line);
                Action::Nothing
            },
            AppEvent::InstallLine(line) => {
                self.on_install_line(line);
                Action::Nothing
            },
            AppEvent::RemoveLine(line) => {
                self.on_remove_line(line);
                Action::Nothing
            },
            AppEvent::ShellLine(line) => {
                self.on_shell_line(line);
                Action::Nothing
            },
            AppEvent::UpdateComplete {
                output,
                packages_before,
                packages_after,
            } => self.handle_update_complete(output, packages_before, packages_after),
            AppEvent::InstallComplete { output } => self.handle_install_complete(output),
            AppEvent::RemoveComplete { output } => self.handle_remove_complete(output),
            AppEvent::ShellComplete { output } => {
                self.on_shell_complete(output);
                Action::Nothing
            },
            AppEvent::AnalysisComplete(a) => self.handle_analysis_complete(Operation::Update, a),
            AppEvent::InstallAnalysisComplete(a) => self.handle_analysis_complete(Operation::Install, a),
            AppEvent::RemoveAnalysisComplete(a) => self.handle_analysis_complete(Operation::Remove, a),
            AppEvent::QueryLocalResults { results, seq } => {
                self.on_query_results(true, results, seq);
                Action::Nothing
            },
            AppEvent::QueryRemoteResults { results, seq } => {
                self.on_query_results(false, results, seq);
                Action::Nothing
            },
            AppEvent::InstallSearchResults { results, seq } => {
                self.on_install_results(results, seq);
                Action::Nothing
            },
            AppEvent::UpdatePreviewReady(updates) => {
                self.on_update_preview(updates);
                Action::Nothing
            },
            AppEvent::InstallPreviewReady(p) => {
                self.on_install_preview(p);
                Action::Nothing
            },
            AppEvent::RemovePreviewReady(p) => {
                self.on_remove_preview(p);
                Action::Nothing
            },
            AppEvent::RemovePackagesLoaded(p) => {
                self.on_packages_loaded(p);
                Action::Nothing
            },
            AppEvent::QueryDetailLoaded { detail, files, dirs } => {
                self.on_detail_loaded(detail, files, dirs);
                Action::Nothing
            },
            AppEvent::ReportSaved(path) => {
                self.on_report_saved(path);
                Action::Nothing
            },
            AppEvent::Error(msg) => {
                self.on_error(msg);
                Action::Nothing
            },
        }
    }
}

} // verus!
