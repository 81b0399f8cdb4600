//! What the reports of the background tasks do to the application.

use crate::app::{
    manager_name, preview_listing, Action, App, AI_OFF_NOTE, CHECKING_UPDATES, NO_UPDATES,
    UPDATE_DONE,
};
use crate::catalog::{Operation, PackageManager};
use crate::prompt::{analysis_prompt, distro_name, generate_analysis_prompt};
use crate::state::{
    add_line_spec, AppMode, InstallModeState, InstallPhase, RemoveModeState, RemovePhase,
    ShellPhase, UpdateModeState, UpdatePhase, ViewMode,
};
use crate::supervisor::Supervisor;
use crate::sysinfo::SystemInfo;
use crate::text::{
    decimal, decimal_chars, from_chars, lemma_texts_push, lines, owned, push_all, push_str, texts,
    to_chars,
};
use crate::types::UpdateOutput;
use vstd::prelude::*;

verus! {

/// The supervisor after the child's handle was given back.
pub open spec fn released(s: Supervisor) -> Supervisor {
    Supervisor { active: None, ..s }
}

/// How a finished run goes on.
#[derive(Debug, Clone, Copy, PartialEq, Eq, Structural)]
pub enum RunOutcome {
    /// It succeeded and its log is to be analysed.
    Analyze,
    /// It succeeded and that is all.
    Completed,
    /// It failed or was cancelled.
    Failed,
}

pub open spec fn outcome_of(success: bool, analysis_enabled: bool) -> RunOutcome {
    if !success {
        RunOutcome::Failed
    } else if analysis_enabled {
        RunOutcome::Analyze
    } else {
        RunOutcome::Completed
    }
}

pub open spec fn opt_seq(s: Option<String>) -> Option<Seq<char>> {
    match s {
        Some(t) => Some(t@),
        None => None,
    }
}

/// Both streams of a finished run as one text.
pub open spec fn combined(o: UpdateOutput) -> Seq<char> {
    o.stdout@ + "\n"@ + o.stderr@
}

/// What is kept of a finished run: a run that succeeded without analysis
/// gets the note that the analysis is switched off.
pub open spec fn kept_output(o: UpdateOutput, outcome: RunOutcome, kept: Option<UpdateOutput>) -> bool {
    match kept {
        Some(k) => k.stderr@ == o.stderr@ && k.success == o.success && k.stdout@ == if outcome
            == RunOutcome::Completed {
            o.stdout@ + AI_OFF_NOTE@
        } else {
            o.stdout@
        },
        None => false,
    }
}

/// The error message after a finished run: a failed run's error output,
/// else what it was.
pub open spec fn error_after(o: UpdateOutput, outcome: RunOutcome, before: Option<String>, after: Option<
    String,
>) -> bool {
    if outcome == RunOutcome::Failed {
        after matches Some(m) && m@ == o.stderr@
    } else {
        after == before
    }
}

pub(crate) fn note_ai_off(o: UpdateOutput) -> (k: UpdateOutput)
    ensures
        k.stdout@ == o.stdout@ + AI_OFF_NOTE@,
        k.stderr@ == o.stderr@,
        k.success == o.success,
{
    let mut c = to_chars(o.stdout.as_str());
    push_str(&mut c, AI_OFF_NOTE);
    UpdateOutput { stdout: from_chars(c.as_slice()), stderr: o.stderr, success: o.success }
}

pub(crate) fn name_of(pm: &Option<PackageManager>) -> (s: String)
    ensures
        s@ == manager_name(*pm),
{
    match pm {
        Some(p) => p.command.clone(),
        None => String::new(),
    }
}

pub(crate) fn distro_of_info(info: &Option<SystemInfo>) -> (s: String)
    ensures
        s@ == distro_name(*info),
{
    match info {
        Some(i) => i.distro.clone(),
        None => owned("Linux"),
    }
}

// ---------------------------------------------------------------------------
// Detection
// ---------------------------------------------------------------------------

pub open spec fn manager_detected_post(pre: App, pm: PackageManager, post: App, action: Action) -> bool {
    let check = pre.mode == AppMode::Update && pre.update.phase
        == UpdatePhase::PackageManagerCheck;
    &&& action matches Action::CountInstalled { check_updates } && check_updates == check
    &&& post == (App {
        package_manager: Some(pm),
        update: UpdateModeState { lines: post.update.lines, ..pre.update },
        ..pre
    })
    &&& texts(post.update.lines@) == if check {
        texts(pre.update.lines@).push(CHECKING_UPDATES@)
    } else {
        texts(pre.update.lines@)
    }
}

impl App {
    /// The package manager was found. The installed packages are to be
    /// counted; an update mode still waiting for the manager goes on to look
    /// up the updates.
    pub fn on_manager_detected(&mut self, pm: PackageManager) -> (action: Action)
        ensures
            manager_detected_post(*old(self), pm, *final(self), action),
    {
        self.package_manager = Some(pm);
        let check = self.mode == AppMode::Update && self.update.phase
            == UpdatePhase::PackageManagerCheck;
        if check {
            let line = owned(CHECKING_UPDATES);
            proof {
                lemma_texts_push(self.update.lines@, line);
            }
            self.update.lines.push(line);
        }
        Action::CountInstalled { check_updates: check }
    }

    pub fn on_system_info(&mut self, info: SystemInfo)
        ensures
            *final(self) == (App { system_info: Some(info), ..*old(self) }),
    {
        self.system_info = Some(info);
    }

    pub fn on_installed_count(&mut self, count: usize)
        ensures
            *final(self) == (App { installed_count: Some(count), ..*old(self) }),
    {
        self.installed_count = Some(count);
    }

    /// A report was saved: its path belongs to the mode that is open, the
    /// update mode if it is none of install and remove.
    pub fn on_report_saved(&mut self, path: String)
        ensures
            *final(self) == report_noted(*old(self), path),
    {
        match self.mode {
            AppMode::Install => {
                self.install.report_path = Some(path);
            },
            AppMode::Remove => {
                self.remove.report_path = Some(path);
            },
            _ => {
                self.update.report_path = Some(path);
            },
        }
    }
}

/// The application after a report was saved at `path`.
pub open spec fn report_noted(pre: App, path: String) -> App {
    match pre.mode {
        AppMode::Install => App {
            install: InstallModeState { report_path: Some(path), ..pre.install },
            ..pre
        },
        AppMode::Remove => App {
            remove: RemoveModeState { report_path: Some(path), ..pre.remove },
            ..pre
        },
        _ => App { update: UpdateModeState { report_path: Some(path), ..pre.update }, ..pre },
    }
}

/// The application after a background task failed with `msg`.
pub open spec fn error_shown(pre: App, msg: String) -> App {
    let shown = App {
        error_message: Some(msg),
        supervisor: if executing(pre) {
            released(pre.supervisor)
        } else {
            pre.supervisor
        },
        ..pre
    };
    match pre.mode {
        AppMode::Install => App {
            install: InstallModeState { phase: InstallPhase::Error, ..pre.install },
            ..shown
        },
        AppMode::Remove => App {
            remove: RemoveModeState { phase: RemovePhase::Error, ..pre.remove },
            ..shown
        },
        _ => App { update: UpdateModeState { phase: UpdatePhase::Error, ..pre.update }, ..shown },
    }
}

/// Whether the open mode is in the phase in which its command runs.
pub open spec fn executing(app: App) -> bool {
    match app.mode {
        AppMode::Update => app.update.phase == UpdatePhase::Updating,
        AppMode::Install => app.install.phase == InstallPhase::Installing,
        AppMode::Remove => app.remove.phase == RemovePhase::Removing,
        AppMode::Shell => app.shell.phase == ShellPhase::Running,
        _ => false,
    }
}

impl App {
    pub fn is_executing(&self) -> (r: bool)
        ensures
            r == executing(*self),
    {
        match self.mode {
            AppMode::Update => self.update.phase == UpdatePhase::Updating,
            AppMode::Install => self.install.phase == InstallPhase::Installing,
            AppMode::Remove => self.remove.phase == RemovePhase::Removing,
            AppMode::Shell => self.shell.phase == ShellPhase::Running,
            _ => false,
        }
    }

    /// A background task failed. The message is shown and the open mode,
    /// the update mode if it is none of install and remove, ends in its
    /// error phase. A run that was under way is over: its handle is given
    /// back.
    pub fn on_error(&mut self, msg: String)
        ensures
            *final(self) == error_shown(*old(self), msg),
    {
        if self.is_executing() {
            self.supervisor.spawn_failed();
        }
        self.error_message = Some(msg);
        match self.mode {
            AppMode::Install => {
                self.install.phase = InstallPhase::Error;
            },
            AppMode::Remove => {
                self.remove.phase = RemovePhase::Error;
            },
            _ => {
                self.update.phase = UpdatePhase::Error;
            },
        }
    }
}

// ---------------------------------------------------------------------------
// Update
// ---------------------------------------------------------------------------

pub open spec fn update_complete_post(
    pre: App,
    output: UpdateOutput,
    before: Option<String>,
    after: Option<String>,
    post: App,
    action: Action,
) -> bool {
    if pre.update.phase != UpdatePhase::Updating {
        post == (App { supervisor: released(pre.supervisor), ..pre }) && action is Nothing
    } else {
        let outcome = outcome_of(output.success, pre.config.ai.update);
        &&& post == (App {
            supervisor: released(pre.supervisor),
            error_message: post.error_message,
            update: UpdateModeState {
                phase: post.update.phase,
                output: post.update.output,
                lines: post.update.lines,
                scroll: post.update.scroll,
                progress_info: post.update.progress_info,
                last_line_is_progress: post.update.last_line_is_progress,
                packages_before: before,
                packages_after: after,
                ..pre.update
            },
            ..pre
        })
        &&& post.update.log_view() == add_line_spec(UPDATE_DONE@, pre.update.log_view())
        &&& kept_output(output, outcome, post.update.output)
        &&& error_after(output, outcome, pre.error_message, post.error_message)
        &&& match outcome {
            RunOutcome::Analyze => {
                &&& post.update.phase == UpdatePhase::Analyzing
                &&& action matches Action::Analyze { operation, prompt, refresh_count }
                    && operation == Operation::Update && !refresh_count && prompt@
                    == analysis_prompt(
                    manager_name(pre.package_manager),
                    combined(output),
                    opt_seq(before),
                    opt_seq(after),
                    pre.system_info,
                )
            },
            RunOutcome::Completed => post.update.phase == UpdatePhase::UpdateComplete
                && action is Nothing,
            RunOutcome::Failed => post.update.phase == UpdatePhase::Error && action is Nothing,
        }
    }
}

pub open spec fn analysis_post(
    pre: App,
    operation: Operation,
    analysis: String,
    post: App,
    action: Action,
) -> bool {
    let waiting = match operation {
        Operation::Install => pre.install.phase == InstallPhase::Analyzing,
        Operation::Remove => pre.remove.phase == RemovePhase::Analyzing,
        _ => pre.update.phase == UpdatePhase::Analyzing,
    };
    if !waiting {
        post == pre && action is Nothing
    } else {
        &&& action matches Action::SaveReport { operation: op, analysis: a, distro } && op
            == operation && a@ == analysis@ && distro@ == distro_name(pre.system_info)
        &&& post == match operation {
            Operation::Install => App {
                install: InstallModeState {
                    analysis: Some(analysis),
                    phase: InstallPhase::AnalysisComplete,
                    view_mode: ViewMode::AIAnalysis,
                    scroll: 0,
                    ..pre.install
                },
                ..pre
            },
            Operation::Remove => App {
                remove: RemoveModeState {
                    analysis: Some(analysis),
                    phase: RemovePhase::AnalysisComplete,
                    view_mode: ViewMode::AIAnalysis,
                    scroll: 0,
                    ..pre.remove
                },
                ..pre
            },
            _ => App {
                update: UpdateModeState {
                    analysis: Some(analysis),
                    phase: UpdatePhase::AnalysisComplete,
                    view_mode: ViewMode::AIAnalysis,
                    scroll: 0,
                    ..pre.update
                },
                ..pre
            },
        }
    }
}

pub open spec fn update_preview_post(pre: App, updates: Vec<String>, post: App) -> bool {
    &&& post == (App {
        update: UpdateModeState {
            preview: updates,
            lines: post.update.lines,
            phase: UpdatePhase::PreviewingUpdates,
            scroll: 0,
            ..pre.update
        },
        ..pre
    })
    &&& texts(post.update.lines@) == preview_listing(texts(updates@))
}

impl App {
    pub fn on_update_line(&mut self, line: String)
        ensures
            final(self).update.log_view() == add_line_spec(line@, old(self).update.log_view()),
            *final(self) == (App {
                update: UpdateModeState {
                    lines: final(self).update.lines,
                    scroll: final(self).update.scroll,
                    progress_info: final(self).update.progress_info,
                    last_line_is_progress: final(self).update.last_line_is_progress,
                    ..old(self).update
                },
                ..*old(self)
            }),
    {
        self.update.add_line(line);
    }

    /// The update command ended. Its handle is given back. Unless the user
    /// has left the run, the result is shown and the mode goes on: to the
    /// analysis, to completion, or to the error phase with the run's error
    /// output as message.
    pub fn handle_update_complete(
        &mut self,
        output: UpdateOutput,
        packages_before: Option<String>,
        packages_after: Option<String>,
    ) -> (action: Action)
        ensures
            update_complete_post(
                *old(self),
                output,
                packages_before,
                packages_after,
                *final(self),
                action,
            ),
    {
        self.supervisor.spawn_failed();
        if self.update.phase != UpdatePhase::Updating {
            return Action::Nothing;
        }
        self.update.add_line(owned(UPDATE_DONE));
        let mut action = Action::Nothing;
        if !output.success {
            self.update.phase = UpdatePhase::Error;
            self.error_message = Some(output.stderr.clone());
            self.update.output = Some(output);
        } else if self.config.ai.update {
            self.update.phase = UpdatePhase::Analyzing;
            let pm = name_of(&self.package_manager);
            let log = output.combined_output();
            let prompt = generate_analysis_prompt(
                pm.as_str(),
                log.as_str(),
                match &packages_before {
                    Some(b) => Some(b.as_str()),
                    None => None,
                },
                match &packages_after {
                    Some(a) => Some(a.as_str()),
                    None => None,
                },
                self.system_info.as_ref(),
            );
            action = Action::Analyze { operation: Operation::Update, prompt, refresh_count: false };
            self.update.output = Some(output);
        } else {
            self.update.phase = UpdatePhase::UpdateComplete;
            self.update.output = Some(note_ai_off(output));
        }
        self.update.packages_before = packages_before;
        self.update.packages_after = packages_after;
        action
    }

    /// An analysis arrived. The mode that waits for it shows it and has it
    /// saved; a mode that no longer waits drops it.
    pub fn handle_analysis_complete(&mut self, operation: Operation, analysis: String) -> (action: Action)
        ensures
            analysis_post(*old(self), operation, analysis, *final(self), action),
    {
        let waiting = match operation {
            Operation::Install => self.install.phase == InstallPhase::Analyzing,
            Operation::Remove => self.remove.phase == RemovePhase::Analyzing,
            _ => self.update.phase == UpdatePhase::Analyzing,
        };
        if !waiting {
            return Action::Nothing;
        }
        let copy = analysis.clone();
        let distro = distro_of_info(&self.system_info);
        match operation {
            Operation::Install => {
                self.install.analysis = Some(analysis);
                self.install.phase = InstallPhase::AnalysisComplete;
                self.install.view_mode = ViewMode::AIAnalysis;
                self.install.scroll = 0;
            },
            Operation::Remove => {
                self.remove.analysis = Some(analysis);
                self.remove.phase = RemovePhase::AnalysisComplete;
                self.remove.view_mode = ViewMode::AIAnalysis;
                self.remove.scroll = 0;
            },
            _ => {
                self.update.analysis = Some(analysis);
                self.update.phase = UpdatePhase::AnalysisComplete;
                self.update.view_mode = ViewMode::AIAnalysis;
                self.update.scroll = 0;
            },
        }
        Action::SaveReport { operation, analysis: copy, distro }
    }

    /// The available updates were looked up: they are listed and await the
    /// user's confirmation.
    pub fn on_update_preview(&mut self, updates: Vec<String>)
        ensures
            update_preview_post(*old(self), updates, *final(self)),
    {
        let mut shown: Vec<String> = Vec::new();
        if updates.len() == 0 {
            shown.push(owned(NO_UPDATES));
            assert(texts(shown@) =~= seq![NO_UPDATES@]);
        } else {
            let mut head: Vec<char> = Vec::new();
            push_str(&mut head, "找到 ");
            let n = decimal_chars(updates.len());
            push_all(&mut head, n.as_slice());
            push_str(&mut head, " 个可用更新：");
            shown.push(from_chars(head.as_slice()));
            shown.push(String::new());
            let mut i: usize = 0;
            while i < updates.len()
                invariant
                    i <= updates.len(),
                    shown@.len() == i + 2,
                    shown@[0]@ == "找到 "@ + decimal(updates@.len()) + " 个可用更新："@,
                    shown@[1]@ == Seq::<char>::empty(),
                    forall|k: int| 0 <= k < i ==> shown@[k + 2]@ == "  "@ + updates@[k]@,
                decreases updates.len() - i,
            {
                let mut row: Vec<char> = Vec::new();
                push_str(&mut row, "  ");
                push_str(&mut row, updates[i].as_str());
                shown.push(from_chars(row.as_slice()));
                i += 1;
            }
            assert(texts(shown@) =~= preview_listing(texts(updates@)));
        }
        self.update.preview = updates;
        self.update.lines = shown;
        self.update.phase = UpdatePhase::PreviewingUpdates;
        self.update.scroll = 0;
    }
}

} // verus!
