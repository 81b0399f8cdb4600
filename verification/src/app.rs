//! The application orchestrator: one state, changed by one event at a time.
//!
//! Everything slow runs elsewhere and reports back with an [`AppEvent`];
//! whatever the application wants done comes back from here as an
//! [`Action`] for the caller to carry out.

use crate::catalog::{Operation, PackageManager};
use crate::config::Config;
use crate::state::{
    copy_texts, AppEvent, AppMode, InstallModeState, QueryModeState, RemoveModeState,
    SettingsModeState, ShellModeState, ShellPhase, UpdateModeState,
};
use crate::supervisor::Supervisor;
use crate::sysinfo::SystemInfo;
use crate::text::{decimal, is_blank, lemma_texts_push, lines, texts};
use crate::types::{InstalledPackage, PackageInfo};
use vstd::prelude::*;

verus! {

/// What the caller is asked to do after an event or a key.
#[derive(Debug)]
pub enum Action {
    /// Nothing.
    Nothing,
    /// Walk the running child down the signal ladder.
    Cancel,
    /// Look up the available updates; answer with `UpdatePreviewReady`.
    CheckUpdates,
    /// Count the installed packages; answer with `InstalledCount`. With
    /// `check_updates` also look up the available updates.
    CountInstalled { check_updates: bool },
    /// Load the installed packages; answer with `RemovePackagesLoaded`.
    LoadInstalled,
    /// Obtain the privilege the operation needs, then report with
    /// [`App::authorization_result`].
    Authorize(Operation),
    /// Start the command and stream its output back.
    Run { operation: Operation, argv: Vec<String> },
    /// Ask for the analysis of a finished run. With `refresh_count` also
    /// count the installed packages anew.
    Analyze { operation: Operation, prompt: String, refresh_count: bool },
    /// Save the analysis as a report; answer with `ReportSaved`.
    SaveReport { operation: Operation, analysis: String, distro: String },
    /// Search installed and remote packages for the query mode.
    Search { keyword: String, seq: u64 },
    /// Search remote packages for the install mode.
    SearchRemote { keyword: String, seq: u64 },
    /// Load the description of a package.
    LoadDetail { name: String, installed: bool },
    /// Preview the installation of the packages.
    PreviewInstall(Vec<String>),
    /// Preview the removal of the packages.
    PreviewRemove(Vec<String>),
    /// Count the installed packages anew.
    RefreshInstalledCount,
    /// Write the configuration to disk, then report with
    /// [`App::settings_saved`].
    SaveSettings,
}

/// The whole state of the application.
pub struct App {
    pub mode: AppMode,
    pub config: Config,
    pub package_manager: Option<PackageManager>,
    pub system_info: Option<SystemInfo>,
    pub error_message: Option<String>,
    pub should_quit: bool,
    pub installed_count: Option<usize>,
    /// The one child that may run, and its cancellation.
    pub supervisor: Supervisor,
    pub update: UpdateModeState,
    pub query: QueryModeState,
    pub install: InstallModeState,
    pub remove: RemoveModeState,
    pub settings: SettingsModeState,
    pub shell: ShellModeState,
}

pub const CHECKING_UPDATES: &'static str = "正在检查可用更新...";

pub const NO_UPDATES: &'static str = "系统已是最新，没有可用更新。";

pub const AI_OFF_NOTE: &'static str = "\n\n[AI 分析已关闭，可在设置中开启]";

pub const UPDATE_DONE: &'static str = "--- 更新完成 ---";

pub const INSTALL_DONE: &'static str = "--- 安装完成 ---";

pub const REMOVE_DONE: &'static str = "--- 卸载完成 ---";

pub const COMMAND_DONE: &'static str = "─── 命令完成 ───";

pub const COMMAND_FAILED: &'static str = "─── 命令失败 ───";

/// The name of the package manager as requests state it.
pub open spec fn manager_name(pm: Option<PackageManager>) -> Seq<char> {
    match pm {
        Some(p) => p.command@,
        None => Seq::empty(),
    }
}

/// The error output with the warning sign before each non-blank line.
pub open spec fn warned_lines(ls: Seq<Seq<char>>) -> Seq<Seq<char>>
    decreases ls.len(),
{
    if ls.len() == 0 {
        Seq::empty()
    } else if is_blank(ls.last()) {
        warned_lines(ls.drop_last())
    } else {
        warned_lines(ls.drop_last()).push("⚠ "@ + ls.last())
    }
}

/// The listing of the available updates as the update mode shows it.
pub open spec fn preview_listing(updates: Seq<Seq<char>>) -> Seq<Seq<char>> {
    if updates.len() == 0 {
        seq![NO_UPDATES@]
    } else {
        seq!["找到 "@ + decimal(updates.len()) + " 个可用更新："@, Seq::empty()] + Seq::new(
            updates.len(),
            |i: int| "  "@ + updates[i],
        )
    }
}

/// The names of the entries of `results` that `marked` points at, in the
/// order of `marked`; indexes beyond the results are passed over.
pub open spec fn names_at(results: Seq<Seq<char>>, marked: Seq<usize>) -> Seq<Seq<char>>
    decreases marked.len(),
{
    if marked.len() == 0 {
        Seq::empty()
    } else if marked.last() < results.len() {
        names_at(results, marked.drop_last()).push(results[marked.last() as int])
    } else {
        names_at(results, marked.drop_last())
    }
}

/// The packages an operation is about: the marked ones, or the highlighted
/// one when none is marked.
pub open spec fn chosen_names(names: Seq<Seq<char>>, highlighted: Option<usize>, marked: Seq<usize>) -> Seq<
    Seq<char>,
> {
    if marked.len() == 0 {
        match highlighted {
            Some(i) => if i < names.len() {
                seq![names[i as int]]
            } else {
                Seq::empty()
            },
            None => Seq::empty(),
        }
    } else {
        names_at(names, marked)
    }
}

pub open spec fn info_names(v: Seq<PackageInfo>) -> Seq<Seq<char>> {
    Seq::new(v.len(), |i: int| v[i].name@)
}

pub open spec fn installed_names(v: Seq<InstalledPackage>) -> Seq<Seq<char>> {
    Seq::new(v.len(), |i: int| v[i].name@)
}

/// The packages the install mode is about.
pub open spec fn install_targets(s: InstallModeState) -> Seq<Seq<char>> {
    chosen_names(info_names(s.results@), Some(s.selected), s.marked@)
}

/// The package that the highlighted row of the filtered list stands for.
pub open spec fn highlighted_package(s: RemoveModeState) -> Option<usize> {
    if s.selected < s.filtered@.len() {
        Some(s.filtered@[s.selected as int])
    } else {
        None
    }
}

/// The packages the remove mode is about.
pub open spec fn remove_targets(s: RemoveModeState) -> Seq<Seq<char>> {
    chosen_names(installed_names(s.packages@), highlighted_package(s), s.marked@)
}

fn names_of_marked(names: &Vec<String>, highlighted: Option<usize>, marked: &Vec<usize>) -> (out: Vec<
    String,
>)
    ensures
        texts(out@) == chosen_names(texts(names@), highlighted, marked@),
{
    let mut out: Vec<String> = Vec::new();
    assert(texts(out@) =~= Seq::<Seq<char>>::empty());
    if marked.len() == 0 {
        match highlighted {
            Some(i) => {
                if i < names.len() {
                    out.push(names[i].clone());
                    assert(texts(out@) =~= seq![texts(names@)[i as int]]);
                }
            },
            None => {},
        }
        return out;
    }
    let mut k: usize = 0;
    assert(marked@.take(0) =~= Seq::<usize>::empty());
    while k < marked.len()
        invariant
            k <= marked.len(),
            texts(out@) == names_at(texts(names@), marked@.take(k as int)),
        decreases marked.len() - k,
    {
        proof {
            let next = marked@.take(k + 1);
            assert(next.drop_last() =~= marked@.take(k as int));
            assert(next.last() == marked@[k as int]);
        }
        let idx = marked[k];
        if idx < names.len() {
            let n = names[idx].clone();
            proof {
                lemma_texts_push(out@, n);
            }
            out.push(n);
        }
        k += 1;
    }
    assert(marked@.take(marked.len() as int) =~= marked@);
    out
}

fn info_name_list(v: &Vec<PackageInfo>) -> (out: Vec<String>)
    ensures
        texts(out@) == info_names(v@),
{
    let mut out: Vec<String> = Vec::new();
    let mut i: usize = 0;
    while i < v.len()
        invariant
            i <= v.len(),
            out@.len() == i,
            forall|k: int| 0 <= k < i ==> out@[k]@ == v@[k].name@,
        decreases v.len() - i,
    {
        out.push(v[i].name.clone());
        i += 1;
    }
    assert(texts(out@) =~= info_names(v@));
    out
}

fn installed_name_list(v: &Vec<InstalledPackage>) -> (out: Vec<String>)
    ensures
        texts(out@) == installed_names(v@),
{
    let mut out: Vec<String> = Vec::new();
    let mut i: usize = 0;
    while i < v.len()
        invariant
            i <= v.len(),
            out@.len() == i,
            forall|k: int| 0 <= k < i ==> out@[k]@ == v@[k].name@,
        decreases v.len() - i,
    {
        out.push(v[i].name.clone());
        i += 1;
    }
    assert(texts(out@) =~= installed_names(v@));
    out
}

impl InstallModeState {
    /// The names of the packages the mode is about: the marked ones, or the
    /// highlighted one when none is marked.
    pub fn collect_selected_packages(&self) -> (out: Vec<String>)
        ensures
            texts(out@) == install_targets(*self),
    {
        let names = info_name_list(&self.results);
        names_of_marked(&names, Some(self.selected), &self.marked)
    }
}

impl RemoveModeState {
    /// The names of the packages the mode is about: the marked ones, or the
    /// highlighted one when none is marked.
    pub fn collect_selected_packages(&self) -> (out: Vec<String>)
        ensures
            texts(out@) == remove_targets(*self),
    {
        let names = installed_name_list(&self.packages);
        let highlighted = if self.selected < self.filtered.len() {
            Some(self.filtered[self.selected])
        } else {
            None
        };
        names_of_marked(&names, highlighted, &self.marked)
    }
}

impl App {
    /// The application as it starts: on the dashboard, nothing detected,
    /// no child running.
    pub fn new(config: Config) -> (app: App)
        ensures
            app.mode == AppMode::Dashboard,
            app.config == config,
            app.package_manager is None,
            app.system_info is None,
            app.error_message is None,
            !app.should_quit,
            app.installed_count is None,
            app.supervisor.active is None,
            app.update.is_new(),
            app.query.is_new(),
            app.install.is_new(),
            app.remove.is_new(),
            app.settings.is_new(),
            app.shell.is_new(),
            app.wf(),
    {
        proof {
            assert forall|y: usize| !Seq::<usize>::empty().contains(y) by {}
        }
        App {
            mode: AppMode::Dashboard,
            config,
            package_manager: None,
            system_info: None,
            error_message: None,
            should_quit: false,
            installed_count: None,
            supervisor: Supervisor::new(),
            update: UpdateModeState::new(),
            query: QueryModeState::new(),
            install: InstallModeState::new(),
            remove: RemoveModeState::new(),
            settings: SettingsModeState::new(),
            shell: ShellModeState::new(),
        }
    }

    /// Puts the update mode back to its initial phase.
    pub fn reset_update_state(&mut self)
        ensures
            final(self).update.is_new(),
            *final(self) == (App {
                update: final(self).update,
                error_message: None,
                ..*old(self)
            }),
    {
        self.update = UpdateModeState::new();
        self.error_message = None;
    }

    /// Puts the query mode back to its initial state.
    pub fn reset_query_state(&mut self)
        ensures
            final(self).query.is_new(),
            *final(self) == (App { query: final(self).query, ..*old(self) }),
    {
        self.query = QueryModeState::new();
    }

    /// Puts the install mode back to its initial phase.
    pub fn reset_install_state(&mut self)
        ensures
            final(self).install.is_new(),
            *final(self) == (App {
                install: final(self).install,
                error_message: None,
                ..*old(self)
            }),
    {
        self.install = InstallModeState::new();
        self.error_message = None;
    }

    /// Puts the remove mode back to its initial phase.
    pub fn reset_remove_state(&mut self)
        ensures
            final(self).remove.is_new(),
            *final(self) == (App {
                remove: final(self).remove,
                error_message: None,
                ..*old(self)
            }),
    {
        self.remove = RemoveModeState::new();
        self.error_message = None;
    }

    /// Puts the shell mode back to its input phase. The command history
    /// stays.
    pub fn reset_shell_state(&mut self)
        ensures
            shell_reset(old(self).shell, final(self).shell),
            *final(self) == (App { shell: final(self).shell, error_message: None, ..*old(self) }),
    {
        let history = copy_texts(&self.shell.history);
        let fresh = ShellModeState::new();
        self.shell = ShellModeState {
            input: fresh.input,
            cursor: fresh.cursor,
            phase: fresh.phase,
            lines: fresh.lines,
            scroll: fresh.scroll,
            history,
            history_idx: fresh.history_idx,
            progress: fresh.progress,
            progress_info: fresh.progress_info,
            last_line_is_progress: fresh.last_line_is_progress,
            output: fresh.output,
        };
        self.error_message = None;
    }
}

/// The shell mode put back to its input phase, its history kept.
pub open spec fn shell_reset(pre: ShellModeState, post: ShellModeState) -> bool {
    &&& texts(post.history@) == texts(pre.history@)
    &&& post.input@.len() == 0
    &&& post.cursor == 0
    &&& post.phase == ShellPhase::Input
    &&& post.lines@.len() == 0
    &&& post.scroll == 0
    &&& post.history_idx is None
    &&& post.progress@.len() == 0
    &&& post.progress_info@ == crate::progress::progress_of(Seq::empty())
    &&& !post.last_line_is_progress
    &&& post.output is None
}

} // verus!
