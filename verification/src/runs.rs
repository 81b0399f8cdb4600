//! What the output and the end of install, remove and shell commands do
//! to the application.

use crate::app::{
    install_targets, manager_name, remove_targets, warned_lines, Action, App, COMMAND_DONE,
    COMMAND_FAILED, INSTALL_DONE, REMOVE_DONE,
};
use crate::catalog::Operation;
use crate::events::{
    combined, distro_of_info, error_after, kept_output, name_of, note_ai_off, outcome_of, released,
    RunOutcome,
};
use crate::prompt::{
    distro_name, generate_install_prompt, generate_remove_prompt, install_prompt, remove_prompt,
};
use crate::state::{
    add_line_spec, last_index, InstallModeState, InstallPhase, RemoveModeState, RemovePhase,
    ShellModeState, ShellPhase,
};
use crate::text::{
    blank_chars, from_chars, lemma_texts_push, lines, owned, push_all, push_str, rows,
    split_lines, texts, to_chars,
};
use crate::types::UpdateOutput;
use vstd::prelude::*;

verus! {

pub open spec fn install_complete_post(pre: App, output: UpdateOutput, post: App, action: Action) -> bool {
    if pre.install.phase != InstallPhase::Installing {
        post == (App { supervisor: released(pre.supervisor), ..pre }) && action is Nothing
    } else {
        let outcome = outcome_of(output.success, pre.config.ai.install);
        &&& post == (App {
            supervisor: released(pre.supervisor),
            error_message: post.error_message,
            install: InstallModeState {
                phase: post.install.phase,
                output: post.install.output,
                lines: post.install.lines,
                scroll: post.install.scroll,
                progress_info: post.install.progress_info,
                last_line_is_progress: post.install.last_line_is_progress,
                ..pre.install
            },
            ..pre
        })
        &&& post.install.log_view() == add_line_spec(INSTALL_DONE@, pre.install.log_view())
        &&& kept_output(output, outcome, post.install.output)
        &&& error_after(output, outcome, pre.error_message, post.error_message)
        &&& match outcome {
            RunOutcome::Analyze => {
                &&& post.install.phase == InstallPhase::Analyzing
                &&& action matches Action::Analyze { operation, prompt, refresh_count }
                    && operation == Operation::Install && refresh_count && prompt@
                    == install_prompt(
                    distro_name(pre.system_info),
                    manager_name(pre.package_manager),
                    install_targets(pre.install),
                    combined(output),
                )
            },
            RunOutcome::Completed => post.install.phase == InstallPhase::InstallComplete
                && action is RefreshInstalledCount,
            RunOutcome::Failed => post.install.phase == InstallPhase::Error
                && action is RefreshInstalledCount,
        }
    }
}

pub open spec fn remove_complete_post(pre: App, output: UpdateOutput, post: App, action: Action) -> bool {
    if pre.remove.phase != RemovePhase::Removing {
        post == (App { supervisor: released(pre.supervisor), ..pre }) && action is Nothing
    } else {
        let outcome = outcome_of(output.success, pre.config.ai.remove);
        &&& post == (App {
            supervisor: released(pre.supervisor),
            error_message: post.error_message,
            remove: RemoveModeState {
                phase: post.remove.phase,
                output: post.remove.output,
                lines: post.remove.lines,
                scroll: post.remove.scroll,
                progress_info: post.remove.progress_info,
                last_line_is_progress: post.remove.last_line_is_progress,
                ..pre.remove
            },
            ..pre
        })
        &&& post.remove.log_view() == add_line_spec(REMOVE_DONE@, pre.remove.log_view())
        &&& kept_output(output, outcome, post.remove.output)
        &&& error_after(output, outcome, pre.error_message, post.error_message)
        &&& match outcome {
            RunOutcome::Analyze => {
                &&& post.remove.phase == RemovePhase::Analyzing
                &&& action matches Action::Analyze { operation, prompt, refresh_count }
                    && operation == Operation::Remove && refresh_count && prompt@
                    == remove_prompt(
                    distro_name(pre.system_info),
                    manager_name(pre.package_manager),
                    remove_targets(pre.remove),
                    combined(output),
                )
            },
            RunOutcome::Completed => post.remove.phase == RemovePhase::RemoveComplete
                && action is RefreshInstalledCount,
            RunOutcome::Failed => post.remove.phase == RemovePhase::Error
                && action is RefreshInstalledCount,
        }
    }
}

/// The shell's display after its command ended: the lines of the error
/// output, marked, and the closing line.
pub open spec fn shell_closing(before: Seq<Seq<char>>, output: UpdateOutput) -> Seq<Seq<char>> {
    (before + warned_lines(lines(output.stderr@))).push(
        if output.success {
            COMMAND_DONE@
        } else {
            COMMAND_FAILED@
        },
    )
}

pub open spec fn shell_complete_post(pre: App, output: UpdateOutput, post: App) -> bool {
    &&& post == (App {
        supervisor: released(pre.supervisor),
        shell: ShellModeState {
            output: Some(output),
            lines: post.shell.lines,
            phase: if output.success {
                ShellPhase::Done
            } else {
                ShellPhase::Error
            },
            scroll: post.shell.scroll,
            ..pre.shell
        },
        ..pre
    })
    &&& texts(post.shell.lines@) == shell_closing(texts(pre.shell.lines@), output)
    &&& post.shell.scroll == last_index(post.shell.lines@.len())
}




impl App {
    pub fn on_install_line(&mut self, line: String)
        ensures
            final(self).install.log_view() == add_line_spec(line@, old(self).install.log_view()),
            *final(self) == (App {
                install: InstallModeState {
                    lines: final(self).install.lines,
                    scroll: final(self).install.scroll,
                    progress_info: final(self).install.progress_info,
                    last_line_is_progress: final(self).install.last_line_is_progress,
                    ..old(self).install
                },
                ..*old(self)
            }),
    {
        self.install.add_line(line);
    }

    pub fn on_remove_line(&mut self, line: String)
        ensures
            final(self).remove.log_view() == add_line_spec(line@, old(self).remove.log_view()),
            *final(self) == (App {
                remove: RemoveModeState {
                    lines: final(self).remove.lines,
                    scroll: final(self).remove.scroll,
                    progress_info: final(self).remove.progress_info,
                    last_line_is_progress: final(self).remove.last_line_is_progress,
                    ..old(self).remove
                },
                ..*old(self)
            }),
    {
        self.remove.add_line(line);
    }

    pub fn on_shell_line(&mut self, line: String)
        ensures
            final(self).shell.log_view() == add_line_spec(line@, old(self).shell.log_view()),
            *final(self) == (App {
                shell: ShellModeState {
                    lines: final(self).shell.lines,
                    scroll: final(self).shell.scroll,
                    progress_info: final(self).shell.progress_info,
                    last_line_is_progress: final(self).shell.last_line_is_progress,
                    ..old(self).shell
                },
                ..*old(self)
            }),
    {
        self.shell.add_line(line);
    }

    /// The install command ended. Its handle is given back. Unless the user
    /// has left the run, the result is shown and the mode goes on: to the
    /// analysis, to completion, or to the error phase with the run's error
    /// output as message.
    pub fn handle_install_complete(&mut self, output: UpdateOutput) -> (action: Action)
        ensures
            install_complete_post(*old(self), output, *final(self), action),
    {
        self.supervisor.spawn_failed();
        if self.install.phase != InstallPhase::Installing {
            return Action::Nothing;
        }
        self.install.add_line(owned(INSTALL_DONE));
        if !output.success {
            self.install.phase = InstallPhase::Error;
            self.error_message = Some(output.stderr.clone());
            self.install.output = Some(output);
            Action::RefreshInstalledCount
        } else if self.config.ai.install {
            self.install.phase = InstallPhase::Analyzing;
            let pm = name_of(&self.package_manager);
            let distro = distro_of_info(&self.system_info);
            let log = output.combined_output();
            let packages = self.install.collect_selected_packages();
            let prompt = generate_install_prompt(
                distro.as_str(),
                pm.as_str(),
                &packages,
                log.as_str(),
            );
            self.install.output = Some(output);
            Action::Analyze { operation: Operation::Install, prompt, refresh_count: true }
        } else {
            self.install.phase = InstallPhase::InstallComplete;
            self.install.output = Some(note_ai_off(output));
            Action::RefreshInstalledCount
        }
    }

    /// The remove command ended; see [`App::handle_install_complete`].
    pub fn handle_remove_complete(&mut self, output: UpdateOutput) -> (action: Action)
        ensures
            remove_complete_post(*old(self), output, *final(self), action),
    {
        self.supervisor.spawn_failed();
        if self.remove.phase != RemovePhase::Removing {
            return Action::Nothing;
        }
        self.remove.add_line(owned(REMOVE_DONE));
        if !output.success {
            self.remove.phase = RemovePhase::Error;
            self.error_message = Some(output.stderr.clone());
            self.remove.output = Some(output);
            Action::RefreshInstalledCount
        } else if self.config.ai.remove {
            self.remove.phase = RemovePhase::Analyzing;
            let pm = name_of(&self.package_manager);
            let distro = distro_of_info(&self.system_info);
            let log = output.combined_output();
            let packages = self.remove.collect_selected_packages();
            let prompt = generate_remove_prompt(
                distro.as_str(),
                pm.as_str(),
                &packages,
                log.as_str(),
            );
            self.remove.output = Some(output);
            Action::Analyze { operation: Operation::Remove, prompt, refresh_count: true }
        } else {
            self.remove.phase = RemovePhase::RemoveComplete;
            self.remove.output = Some(note_ai_off(output));
            Action::RefreshInstalledCount
        }
    }

    /// The shell command ended: its handle is given back, its error output
    /// is appended line by line, then the closing line, and the mode is done
    /// or, after a failure, in its error phase.
    pub fn on_shell_complete(&mut self, output: UpdateOutput)
        ensures
            shell_complete_post(*old(self), output, *final(self)),
    {
        self.supervisor.spawn_failed();
        let err = to_chars(output.stderr.as_str());
        let ls = split_lines(err.as_slice());
        let ghost before = texts(self.shell.lines@);
        let mut i: usize = 0;
        proof {
            assert(rows(ls@).take(0) =~= Seq::<Seq<char>>::empty());
            assert(before + Seq::<Seq<char>>::empty() =~= before);
        }
        while i < ls.len()
            invariant
                i <= ls.len(),
                rows(ls@) == lines(output.stderr@),
                texts(self.shell.lines@) == before + warned_lines(rows(ls@).take(i as int)),
                *self == (App {
                    shell: ShellModeState { lines: self.shell.lines, ..old(self).shell },
                    supervisor: released(old(self).supervisor),
                    ..*old(self)
                }),
            decreases ls.len() - i,
        {
            proof {
                let next = rows(ls@).take(i + 1);
                assert(next.drop_last() =~= rows(ls@).take(i as int));
                assert(next.last() == ls@[i as int]@);
            }
            if !blank_chars(ls[i].as_slice()) {
                let mut row: Vec<char> = Vec::new();
                push_str(&mut row, "⚠ ");
                push_all(&mut row, ls[i].as_slice());
                let text = from_chars(row.as_slice());
                proof {
                    lemma_texts_push(self.shell.lines@, text);
                    assert((before + warned_lines(rows(ls@).take(i as int))).push(text@)
                        =~= before + warned_lines(rows(ls@).take(i as int)).push(text@));
                }
                self.shell.lines.push(text);
            }
            i += 1;
        }
        assert(rows(ls@).take(ls.len() as int) =~= rows(ls@));
        let closing = if output.success {
            owned(COMMAND_DONE)
        } else {
            owned(COMMAND_FAILED)
        };
        proof {
            lemma_texts_push(self.shell.lines@, closing);
        }
        self.shell.lines.push(closing);
        self.shell.phase = if output.success {
            ShellPhase::Done
        } else {
            ShellPhase::Error
        };
        self.shell.output = Some(output);
        self.shell.scroll = if self.shell.lines.len() == 0 {
            0
        } else {
            self.shell.lines.len() - 1
        };
    }
}

} // verus!
