//! The keys of the shell mode.

use crate::app::{shell_reset, Action, App};
use crate::catalog::{command_words, Operation};
use crate::input::{apply_edit_key, edit_spec};
use crate::install_keys::{one_up, up_one};
use crate::keys::{bump, bumped, scroll_by_key, scroll_key, visible_rows, Context, Key, KeyCode};
use crate::launch::granted;
use crate::state::{visible_content_height, AppMode, ShellModeState, ShellPhase};
use crate::text::{lemma_texts_push, same_text, texts, trim, trim_str};
use vstd::prelude::*;

verus! {

/// The history after `cmd` was run: it is appended unless it repeats the
/// entry before it.
pub open spec fn remembered(history: Seq<Seq<char>>, cmd: Seq<char>) -> Seq<Seq<char>> {
    if history.len() > 0 && history.last() == cmd {
        history
    } else {
        history.push(cmd)
    }
}

/// The shell after the command `cmd` was asked to start from the state
/// `base`, which differs from `pre` only in the shell's fields that a start
/// leaves alone.
pub open spec fn shell_started(
    pre: App,
    base: ShellModeState,
    cmd: Seq<char>,
    post: App,
    action: Action,
) -> bool {
    if command_words(cmd).len() == 0 || pre.supervisor.active is Some {
        post == (App { shell: base, ..pre }) && action is Nothing
    } else {
        &&& post == (App {
            supervisor: granted(pre.supervisor, Operation::Custom),
            shell: ShellModeState {
                phase: ShellPhase::Running,
                lines: post.shell.lines,
                output: None,
                progress: post.shell.progress,
                scroll: 0,
                ..base
            },
            ..pre
        })
        &&& post.shell.progress@ == Seq::<char>::empty()
        &&& texts(post.shell.lines@) == seq!["$ "@ + cmd, Seq::empty()]
        &&& action matches Action::Run { operation, argv } && operation == Operation::Custom
            && texts(argv@) == command_words(cmd)
    }
}

/// The entry of the history that Up recalls.
pub open spec fn recalled_up(idx: Option<usize>, len: nat) -> usize {
    match idx {
        None => (len - 1) as usize,
        Some(i) => if i == 0 {
            0
        } else {
            (i - 1) as usize
        },
    }
}

/// The input phase after a key.
pub open spec fn shell_input_post(pre: App, key: Key, post: App, consumed: bool, action: Action) -> bool {
    let s = pre.shell;
    match key.code {
        KeyCode::Esc => {
            &&& consumed && action is Nothing
            &&& shell_reset(s, post.shell)
            &&& post == (App {
                mode: AppMode::Dashboard,
                shell: post.shell,
                error_message: None,
                ..pre
            })
        },
        KeyCode::Enter => consumed && if trim(s.input@).len() == 0 {
            post == pre && action is Nothing
        } else {
            &&& texts(post.shell.history@) == remembered(texts(s.history@), trim(s.input@))
            &&& shell_started(
                pre,
                ShellModeState { history: post.shell.history, history_idx: None, ..s },
                trim(s.input@),
                post,
                action,
            )
        },
        KeyCode::Up => consumed && action is Nothing && if s.history@.len() == 0 {
            post == pre
        } else {
            let at = recalled_up(s.history_idx, s.history@.len());
            if at < s.history@.len() {
                post == (App {
                    shell: ShellModeState {
                        history_idx: Some(at),
                        input: s.history@[at as int],
                        cursor: s.history@[at as int]@.len() as usize,
                        ..s
                    },
                    ..pre
                })
            } else {
                post == (App { shell: ShellModeState { history_idx: Some(at), ..s }, ..pre })
            }
        },
        KeyCode::Down => consumed && action is Nothing && match s.history_idx {
            None => post == pre,
            Some(i) => if i + 1 >= s.history@.len() {
                &&& post.shell.input@.len() == 0
                &&& post == (App {
                    shell: ShellModeState {
                        history_idx: None,
                        input: post.shell.input,
                        cursor: 0,
                        ..s
                    },
                    ..pre
                })
            } else {
                post == (App {
                    shell: ShellModeState {
                        history_idx: Some((i + 1) as usize),
                        input: s.history@[i + 1],
                        cursor: s.history@[i + 1]@.len() as usize,
                        ..s
                    },
                    ..pre
                })
            },
        },
        _ => action is Nothing && match edit_spec(s.input@, s.cursor, key.code) {
            Some((text, cursor)) => if key.code is Char && key.ctrl {
                !consumed && post == pre
            } else {
                &&& consumed
                &&& post.shell.input@ == text
                &&& post == (App {
                    shell: ShellModeState { input: post.shell.input, cursor, ..s },
                    ..pre
                })
            },
            None => !consumed && post == pre,
        },
    }
}

/// The running phase after a key: Escape asks to cancel the command.
pub open spec fn shell_running_post(pre: App, key: Key, post: App, consumed: bool, action: Action) -> bool {
    let s = pre.shell;
    match key.code {
        KeyCode::Esc => consumed && action is Cancel && post == pre,
        KeyCode::Up => consumed && action is Nothing && post == (App {
            shell: ShellModeState { scroll: one_up(s.scroll), ..s },
            ..pre
        }),
        KeyCode::Down => consumed && action is Nothing && post == (App {
            shell: ShellModeState { scroll: bumped(s.scroll), ..s },
            ..pre
        }),
        _ => !consumed && action is Nothing && post == pre,
    }
}

/// The shell's fields after its display was cleared for the input `input`.
pub open spec fn shell_cleared(s: ShellModeState, post: ShellModeState) -> bool {
    &&& post.lines@.len() == 0
    &&& post.progress@.len() == 0
    &&& post == (ShellModeState {
        phase: ShellPhase::Input,
        input: post.input,
        cursor: post.cursor,
        lines: post.lines,
        output: None,
        progress: post.progress,
        scroll: 0,
        ..s
    })
}

/// The phase after a command's end, after a key: Escape returns to a blank
/// input, Enter runs the last command of the history again.
pub open spec fn shell_done_post(
    pre: App,
    key: Key,
    term_height: u16,
    post: App,
    consumed: bool,
    action: Action,
) -> bool {
    let s = pre.shell;
    match key.code {
        KeyCode::Esc => {
            &&& consumed && action is Nothing
            &&& shell_cleared(s, post.shell)
            &&& post.shell.input@.len() == 0 && post.shell.cursor == 0
            &&& post == (App { shell: post.shell, ..pre })
        },
        KeyCode::Enter => consumed && if s.history@.len() == 0 {
            post == pre && action is Nothing
        } else {
            let last = s.history@.last();
            &&& post.shell.input == last
            &&& post.shell.cursor == last@.len()
            &&& if command_words(last@).len() == 0 || pre.supervisor.active is Some {
                &&& action is Nothing
                &&& shell_cleared(s, post.shell)
                &&& post == (App { shell: post.shell, ..pre })
            } else {
                &&& post == (App {
                    supervisor: granted(pre.supervisor, Operation::Custom),
                    shell: ShellModeState {
                        phase: ShellPhase::Running,
                        input: post.shell.input,
                        cursor: post.shell.cursor,
                        lines: post.shell.lines,
                        output: None,
                        progress: post.shell.progress,
                        scroll: 0,
                        ..s
                    },
                    ..pre
                })
                &&& post.shell.progress@ == Seq::<char>::empty()
                &&& texts(post.shell.lines@) == seq!["$ "@ + last@, Seq::empty()]
                &&& action matches Action::Run { operation, argv } && operation
                    == Operation::Custom && texts(argv@) == command_words(last@)
            }
        },
        _ => action is Nothing && match scroll_key(
            s.scroll,
            key.code,
            s.lines@.len() as usize,
            visible_rows(term_height),
        ) {
            Some(scroll) => consumed && post == (App {
                shell: ShellModeState { scroll, ..s },
                ..pre
            }),
            None => !consumed && post == pre,
        },
    }
}

/// The shell mode after a key.
pub open spec fn shell_key_post(
    pre: App,
    key: Key,
    ctx: Context,
    post: App,
    consumed: bool,
    action: Action,
) -> bool {
    match pre.shell.phase {
        ShellPhase::Input => shell_input_post(pre, key, post, consumed, action),
        ShellPhase::Running => shell_running_post(pre, key, post, consumed, action),
        _ => shell_done_post(pre, key, ctx.term_height, post, consumed, action),
    }
}

impl App {
    fn handle_shell_input_key(&mut self, key: Key) -> (r: (bool, Action))
        ensures
            shell_input_post(*old(self), key, *final(self), r.0, r.1),
    {
        match key.code {
            KeyCode::Esc => {
                self.mode = AppMode::Dashboard;
                self.reset_shell_state();
                (true, Action::Nothing)
            },
            KeyCode::Enter => {
                let cmd = trim_str(self.shell.input.as_str());
                if cmd.as_str().unicode_len() == 0 {
                    return (true, Action::Nothing);
                }
                let n: usize = self.shell.history.len();
                let repeats = n > 0 && same_text(self.shell.history[n - 1].as_str(), cmd.as_str());
                proof {
                    if n > 0 {
                        assert(texts(self.shell.history@).last() == self.shell.history@[n - 1]@);
                    }
                }
                if !repeats {
                    proof {
                        lemma_texts_push(self.shell.history@, cmd);
                    }
                    self.shell.history.push(cmd.clone());
                }
                self.shell.history_idx = None;
                let action = self.spawn_shell_task(cmd.as_str());
                (true, action)
            },
            KeyCode::Up => {
                let n: usize = self.shell.history.len();
                if n == 0 {
                    return (true, Action::Nothing);
                }
                let at: usize = match self.shell.history_idx {
                    None => n - 1,
                    Some(i) => up_one(i),
                };
                self.shell.history_idx = Some(at);
                if at < n {
                    self.shell.input = self.shell.history[at].clone();
                    self.shell.cursor = self.shell.input.as_str().unicode_len();
                }
                (true, Action::Nothing)
            },
            KeyCode::Down => {
                match self.shell.history_idx {
                    None => {},
                    Some(i) => {
                        let n: usize = self.shell.history.len();
                        if n == 0 || i >= n - 1 {
                            self.shell.history_idx = None;
                            self.shell.input = String::new();
                            self.shell.cursor = 0;
                        } else {
                            self.shell.history_idx = Some(i + 1);
                            self.shell.input = self.shell.history[i + 1].clone();
                            self.shell.cursor = self.shell.input.as_str().unicode_len();
                        }
                    },
                }
                (true, Action::Nothing)
            },
            _ => {
                match key.code {
                    KeyCode::Char(_) => {
                        if key.ctrl {
                            return (false, Action::Nothing);
                        }
                    },
                    _ => {},
                }
                let handled = apply_edit_key(
                    &mut self.shell.input,
                    &mut self.shell.cursor,
                    key.code,
                );
                (handled, Action::Nothing)
            },
        }
    }

    fn handle_shell_running_key(&mut self, key: Key) -> (r: (bool, Action))
        ensures
            shell_running_post(*old(self), key, *final(self), r.0, r.1),
    {
        match key.code {
            KeyCode::Esc => (true, Action::Cancel),
            KeyCode::Up => {
                self.shell.scroll = up_one(self.shell.scroll);
                (true, Action::Nothing)
            },
            KeyCode::Down => {
                self.shell.scroll = bump(self.shell.scroll);
                (true, Action::Nothing)
            },
            _ => (false, Action::Nothing),
        }
    }

    fn clear_shell_display(&mut self)
        ensures
            final(self).shell == (ShellModeState {
                phase: ShellPhase::Input,
                lines: final(self).shell.lines,
                output: None,
                progress: final(self).shell.progress,
                scroll: 0,
                ..old(self).shell
            }),
            final(self).shell.lines@.len() == 0,
            final(self).shell.progress@.len() == 0,
            *final(self) == (App { shell: final(self).shell, ..*old(self) }),
    {
        self.shell.phase = ShellPhase::Input;
        self.shell.lines = Vec::new();
        self.shell.output = None;
        self.shell.progress = String::new();
        self.shell.scroll = 0;
    }

    fn handle_shell_done_key(&mut self, key: Key, term_height: u16) -> (r: (bool, Action))
        ensures
            shell_done_post(*old(self), key, term_height, *final(self), r.0, r.1),
    {
        match key.code {
            KeyCode::Esc => {
                self.clear_shell_display();
                self.shell.input = String::new();
                self.shell.cursor = 0;
                (true, Action::Nothing)
            },
            KeyCode::Enter => {
                let n: usize = self.shell.history.len();
                if n == 0 {
                    return (true, Action::Nothing);
                }
                let last = self.shell.history[n - 1].clone();
                self.clear_shell_display();
                self.shell.cursor = last.as_str().unicode_len();
                self.shell.input = last.clone();
                let action = self.spawn_shell_task(last.as_str());
                (true, action)
            },
            _ => {
                let visible = visible_content_height(term_height);
                match scroll_by_key(self.shell.scroll, key.code, self.shell.lines.len(), visible) {
                    Some(scroll) => {
                        self.shell.scroll = scroll;
                        (true, Action::Nothing)
                    },
                    None => (false, Action::Nothing),
                }
            },
        }
    }

    /// Handles a key in the shell mode; tells whether it was of use and
    /// what is to be done.
    pub fn handle_shell_key(&mut self, key: Key, ctx: Context) -> (r: (bool, Action))
        ensures
            shell_key_post(*old(self), key, ctx, *final(self), r.0, r.1),
    {
        match self.shell.phase {
            ShellPhase::Input => self.handle_shell_input_key(key),
            ShellPhase::Running => self.handle_shell_running_key(key),
            _ => self.handle_shell_done_key(key, ctx.term_height),
        }
    }
}

} // verus!
