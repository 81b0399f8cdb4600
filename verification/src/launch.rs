//! Starting commands: the one place where a child's handle is asked for.
//!
//! A command starts only when the supervisor grants the handle; while a
//! child is active every further start is refused and changes nothing.

use crate::app::{install_targets, remove_targets, Action, App};
use crate::catalog::{argv_of, command_words, parse_command, Operation};
use crate::state::{
    InstallModeState, InstallPhase, RemoveModeState, RemovePhase, ShellModeState, ShellPhase,
    UpdateModeState, UpdatePhase,
};
use crate::supervisor::{spawn_spec, Supervisor};
use crate::text::{from_chars, join, join_texts, owned, push_all, push_str, texts};
use vstd::prelude::*;

verus! {

pub const UPDATING: &'static str = "正在执行更新...";

pub const SUDO_DENIED: &'static str = "sudo 验证失败，请确保你有 sudo 权限";

pub const SUDO_FAILED: &'static str = "sudo 验证出错: ";

/// How the attempt to obtain the privilege ended.
#[derive(Debug)]
pub enum Authorization {
    Granted,
    Denied,
    /// It could not even be tried; with the reason.
    Failed(String),
}

/// The supervisor with the handle for `op` granted.
pub open spec fn granted(s: Supervisor, op: Operation) -> Supervisor {
    spawn_spec(s, op).0
}

pub open spec fn installing_line(names: Seq<Seq<char>>) -> Seq<char> {
    "正在安装: "@ + join(names, ", "@) + " ..."@
}

pub open spec fn removing_line(names: Seq<Seq<char>>) -> Seq<char> {
    "正在卸载: "@ + join(names, ", "@) + " ..."@
}

pub open spec fn spawn_update_post(pre: App, post: App, action: Action) -> bool {
    match pre.package_manager {
        Some(pm) if pre.supervisor.active is None => {
            &&& post == (App {
                supervisor: granted(pre.supervisor, Operation::Update),
                update: UpdateModeState {
                    phase: UpdatePhase::Updating,
                    lines: post.update.lines,
                    ..pre.update
                },
                ..pre
            })
            &&& texts(post.update.lines@) == seq![UPDATING@]
            &&& action matches Action::Run { operation, argv } && operation == Operation::Update
                && texts(argv@) == argv_of(Operation::Update, pm.command@, Seq::empty())
        },
        _ => post == pre && action is Nothing,
    }
}

pub open spec fn spawn_install_post(pre: App, post: App, action: Action) -> bool {
    match pre.package_manager {
        Some(pm) if pre.supervisor.active is None && install_targets(pre.install).len() > 0 => {
            &&& post == (App {
                supervisor: granted(pre.supervisor, Operation::Install),
                install: InstallModeState {
                    phase: InstallPhase::Installing,
                    lines: post.install.lines,
                    scroll: 0,
                    ..pre.install
                },
                ..pre
            })
            &&& texts(post.install.lines@) == seq![installing_line(install_targets(pre.install))]
            &&& action matches Action::Run { operation, argv } && operation
                == Operation::Install && texts(argv@) == argv_of(
                Operation::Install,
                pm.command@,
                install_targets(pre.install),
            )
        },
        _ => post == pre && action is Nothing,
    }
}

pub open spec fn spawn_remove_post(pre: App, post: App, action: Action) -> bool {
    match pre.package_manager {
        Some(pm) if pre.supervisor.active is None && remove_targets(pre.remove).len() > 0 => {
            &&& post == (App {
                supervisor: granted(pre.supervisor, Operation::Remove),
                remove: RemoveModeState {
                    phase: RemovePhase::Removing,
                    lines: post.remove.lines,
                    scroll: 0,
                    ..pre.remove
                },
                ..pre
            })
            &&& texts(post.remove.lines@) == seq![removing_line(remove_targets(pre.remove))]
            &&& action matches Action::Run { operation, argv } && operation == Operation::Remove
                && texts(argv@) == argv_of(
                Operation::Remove,
                pm.command@,
                remove_targets(pre.remove),
            )
        },
        _ => post == pre && action is Nothing,
    }
}

pub open spec fn spawn_shell_post(pre: App, cmd: Seq<char>, post: App, action: Action) -> bool {
    if command_words(cmd).len() == 0 || pre.supervisor.active is Some {
        post == pre && action is Nothing
    } else {
        &&& post == (App {
            supervisor: granted(pre.supervisor, Operation::Custom),
            shell: ShellModeState {
                phase: ShellPhase::Running,
                lines: post.shell.lines,
                output: None,
                progress: post.shell.progress,
                scroll: 0,
                ..pre.shell
            },
            ..pre
        })
        &&& post.shell.progress@ == Seq::<char>::empty()
        &&& texts(post.shell.lines@) == seq!["$ "@ + cmd, Seq::empty()]
        &&& action matches Action::Run { operation, argv } && operation == Operation::Custom
            && texts(argv@) == command_words(cmd)
    }
}

/// The application after the attempt to obtain the privilege for `op`:
/// granted, the command starts; otherwise the operation's mode ends in its
/// error phase with the reason as message.
pub open spec fn authorization_post(
    pre: App,
    op: Operation,
    answer: Authorization,
    post: App,
    action: Action,
) -> bool {
    match answer {
        Authorization::Granted => match op {
            Operation::Update => spawn_update_post(pre, post, action),
            Operation::Install => spawn_install_post(pre, post, action),
            Operation::Remove => spawn_remove_post(pre, post, action),
            Operation::Custom => post == pre && action is Nothing,
        },
        _ => {
            &&& action is Nothing
            &&& post.error_message matches Some(m) && m@ == match answer {
                Authorization::Failed(why) => SUDO_FAILED@ + why@,
                _ => SUDO_DENIED@,
            }
            &&& post == match op {
                Operation::Update => App {
                    error_message: post.error_message,
                    update: UpdateModeState { phase: UpdatePhase::Error, ..pre.update },
                    ..pre
                },
                Operation::Install => App {
                    error_message: post.error_message,
                    install: InstallModeState { phase: InstallPhase::Error, ..pre.install },
                    ..pre
                },
                Operation::Remove => App {
                    error_message: post.error_message,
                    remove: RemoveModeState { phase: RemovePhase::Error, ..pre.remove },
                    ..pre
                },
                Operation::Custom => App { error_message: post.error_message, ..pre },
            }
        },
    }
}

fn one_line(s: String) -> (v: Vec<String>)
    ensures
        texts(v@) == seq![s@],
{
    let mut v: Vec<String> = Vec::new();
    v.push(s);
    assert(texts(v@) =~= seq![s@]);
    v
}

fn listing_line(prefix: &str, names: &Vec<String>) -> (s: String)
    ensures
        s@ == prefix@ + join(texts(names@), ", "@) + " ..."@,
{
    let mut c: Vec<char> = Vec::new();
    push_str(&mut c, prefix);
    let joined = join_texts(names, ", ");
    push_all(&mut c, joined.as_slice());
    push_str(&mut c, " ...");
    from_chars(c.as_slice())
}

impl App {
    /// Starts the system update, if a package manager is known and no
    /// child is active.
    pub fn spawn_update_task(&mut self) -> (action: Action)
        ensures
            spawn_update_post(*old(self), *final(self), action),
    {
        let argv = match &self.package_manager {
            Some(pm) => {
                let none: Vec<String> = Vec::new();
                assert(texts(none@) =~= Seq::<Seq<char>>::empty());
                match pm.argv(Operation::Update, &none) {
                    Ok(v) => v,
                    Err(_) => {
                        return Action::Nothing;
                    },
                }
            },
            None => {
                return Action::Nothing;
            },
        };
        if !self.supervisor.request_spawn(Operation::Update) {
            return Action::Nothing;
        }
        self.update.phase = UpdatePhase::Updating;
        self.update.lines = one_line(owned(UPDATING));
        Action::Run { operation: Operation::Update, argv }
    }

    /// Starts the installation of the chosen packages, if a package manager
    /// is known, a package is chosen and no child is active.
    pub fn spawn_install_task(&mut self) -> (action: Action)
        ensures
            spawn_install_post(*old(self), *final(self), action),
    {
        let packages = self.install.collect_selected_packages();
        let argv = match &self.package_manager {
            Some(pm) => {
                if packages.len() == 0 {
                    return Action::Nothing;
                }
                match pm.argv(Operation::Install, &packages) {
                    Ok(v) => v,
                    Err(_) => {
                        return Action::Nothing;
                    },
                }
            },
            None => {
                return Action::Nothing;
            },
        };
        if !self.supervisor.request_spawn(Operation::Install) {
            return Action::Nothing;
        }
        self.install.phase = InstallPhase::Installing;
        self.install.lines = one_line(listing_line("正在安装: ", &packages));
        self.install.scroll = 0;
        Action::Run { operation: Operation::Install, argv }
    }

    /// Starts the removal of the chosen packages, if a package manager is
    /// known, a package is chosen and no child is active.
    pub fn spawn_remove_task(&mut self) -> (action: Action)
        ensures
            spawn_remove_post(*old(self), *final(self), action),
    {
        let packages = self.remove.collect_selected_packages();
        let argv = match &self.package_manager {
            Some(pm) => {
                if packages.len() == 0 {
                    return Action::Nothing;
                }
                match pm.argv(Operation::Remove, &packages) {
                    Ok(v) => v,
                    Err(_) => {
                        return Action::Nothing;
                    },
                }
            },
            None => {
                return Action::Nothing;
            },
        };
        if !self.supervisor.request_spawn(Operation::Remove) {
            return Action::Nothing;
        }
        self.remove.phase = RemovePhase::Removing;
        self.remove.lines = one_line(listing_line("正在卸载: ", &packages));
        self.remove.scroll = 0;
        Action::Run { operation: Operation::Remove, argv }
    }

    /// Starts a typed command, if it has a word and no child is active.
    pub fn spawn_shell_task(&mut self, cmd: &str) -> (action: Action)
        ensures
            spawn_shell_post(*old(self), cmd@, *final(self), action),
    {
        let argv = parse_command(cmd);
        if argv.len() == 0 {
            return Action::Nothing;
        }
        if !self.supervisor.request_spawn(Operation::Custom) {
            return Action::Nothing;
        }
        self.shell.phase = ShellPhase::Running;
        let mut first: Vec<char> = Vec::new();
        push_str(&mut first, "$ ");
        push_str(&mut first, cmd);
        let mut shown: Vec<String> = Vec::new();
        shown.push(from_chars(first.as_slice()));
        shown.push(String::new());
        assert(texts(shown@) =~= seq!["$ "@ + cmd@, Seq::<char>::empty()]);
        self.shell.lines = shown;
        self.shell.output = None;
        self.shell.progress = String::new();
        self.shell.scroll = 0;
        Action::Run { operation: Operation::Custom, argv }
    }

    /// Takes the answer to [`Action::Authorize`].
    pub fn authorization_result(&mut self, op: Operation, answer: Authorization) -> (action: Action)
        ensures
            authorization_post(*old(self), op, answer, *final(self), action),
    {
        let message = match answer {
            Authorization::Granted => {
                return match op {
                    Operation::Update => self.spawn_update_task(),
                    Operation::Install => self.spawn_install_task(),
                    Operation::Remove => self.spawn_remove_task(),
                    Operation::Custom => Action::Nothing,
                };
            },
            Authorization::Denied => owned(SUDO_DENIED),
            Authorization::Failed(why) => {
                let mut c: Vec<char> = Vec::new();
                push_str(&mut c, SUDO_FAILED);
                push_str(&mut c, why.as_str());
                from_chars(c.as_slice())
            },
        };
        self.error_message = Some(message);
        match op {
            Operation::Update => {
                self.update.phase = UpdatePhase::Error;
            },
            Operation::Install => {
                self.install.phase = InstallPhase::Error;
            },
            Operation::Remove => {
                self.remove.phase = RemovePhase::Error;
            },
            Operation::Custom => {},
        }
        Action::Nothing
    }
}

/// While a child is active no command starts: every attempt leaves the
/// application as it is and asks for nothing.
pub proof fn lemma_no_second_spawn(pre: App, cmd: Seq<char>, post: App, action: Action)
    requires
        pre.supervisor.active is Some,
        spawn_update_post(pre, post, action) || spawn_install_post(pre, post, action)
            || spawn_remove_post(pre, post, action) || spawn_shell_post(pre, cmd, post, action),
    ensures
        post == pre,
        action is Nothing,
{
}

} // verus!
