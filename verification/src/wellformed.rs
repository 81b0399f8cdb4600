//! What holds of the application between any two steps: the marks of a list
//! are a set of entries of that list, the highlight stands on an entry, and
//! the shell's place in its history is one of its entries.

use crate::app::{Action, App};
use crate::filter::{
    ascending_below, lemma_filter_ascending, lemma_kept_marks_is_intersection,
    lemma_toggle_is_set_flip, lowercase_of,
};
use crate::install_keys::install_key_post;
use crate::keys::{Context, Key};
use crate::remove_keys::remove_key_post;
use crate::results::{install_results_post, packages_loaded_post};
use crate::shell_keys::shell_key_post;
use crate::state::{InstallModeState, RemoveModeState, ShellModeState};
use crate::types::{installed_views, InstalledPackage, PackageInfo};
use crate::orchestrator::{event_post, key_post, tick_post};
use crate::state::AppEvent;
use vstd::prelude::*;
use vstd::std_specs::vec::axiom_spec_len;

verus! {

impl InstallModeState {
    /// No result is marked twice, every mark is a result, and the highlight
    /// stands on a result when there is one.
    pub open spec fn wf(self) -> bool {
        &&& self.marked@.no_duplicates()
        &&& forall|y: usize| self.marked@.contains(y) ==> y < self.results@.len()
        &&& self.results@.len() > 0 ==> self.selected < self.results@.len()
    }
}

impl RemoveModeState {
    /// The filtered list names packages of the list in ascending order, no
    /// package is marked twice, every mark is in the filtered list, and the
    /// highlight stands on a row of it when it has one.
    pub open spec fn wf(self) -> bool {
        &&& ascending_below(self.filtered@, self.packages@.len())
        &&& self.marked@.no_duplicates()
        &&& forall|y: usize| self.marked@.contains(y) ==> self.filtered@.contains(y)
        &&& self.filtered@.len() > 0 ==> self.selected < self.filtered@.len()
    }
}

impl ShellModeState {
    /// The place in the history, when there is one, is an entry of it.
    pub open spec fn wf(self) -> bool {
        self.history_idx matches Some(i) ==> i < self.history@.len()
    }
}

impl App {
    /// What holds of the application between any two steps.
    pub open spec fn wf(self) -> bool {
        self.install.wf() && self.remove.wf() && self.shell.wf()
    }
}

/// A mode as it starts is well-formed.
pub proof fn lemma_new_modes_wf(i: InstallModeState, r: RemoveModeState, s: ShellModeState)
    ensures
        i.is_new() ==> i.wf(),
        r.is_new() ==> r.wf(),
        s.is_new() ==> s.wf(),
{
    if i.is_new() {
        assert forall|y: usize| !i.marked@.contains(y) by {}
    }
    if r.is_new() {
        assert forall|y: usize| !r.marked@.contains(y) by {}
    }
}

/// The answer to a search leaves the install mode well-formed.
pub proof fn lemma_install_results_keep_wf(
    pre: InstallModeState,
    results: Vec<PackageInfo>,
    seq: u64,
    post: InstallModeState,
)
    requires
        pre.wf(),
        install_results_post(pre, results, seq, post),
    ensures
        post.wf(),
{
    if seq == pre.search.issued {
        assert forall|y: usize| !post.marked@.contains(y) by {}
    }
}

/// The arrival of the installed packages leaves the remove mode
/// well-formed.
pub proof fn lemma_packages_loaded_keep_wf(pre: App, packages: Vec<InstalledPackage>, post: App)
    requires
        pre.remove.wf(),
        packages_loaded_post(pre, packages, post),
    ensures
        post.remove.wf(),
{
    axiom_spec_len(&packages);
    lemma_filter_ascending(installed_views(packages@), lowercase_of(pre.remove.input@));
    lemma_kept_marks_is_intersection(pre.remove.marked@, post.remove.filtered@);
}

/// A key leaves the install mode well-formed.
pub proof fn lemma_install_key_keeps_wf(
    pre: App,
    key: Key,
    ctx: Context,
    post: App,
    consumed: bool,
    action: Action,
)
    requires
        pre.install.wf(),
        install_key_post(pre, key, ctx, post, consumed, action),
    ensures
        post.install.wf(),
        post.remove == pre.remove,
        post.shell == pre.shell,
{
    let s = pre.install;
    lemma_toggle_is_set_flip(s.marked@, s.selected);
    assert forall|y: usize| post.install.marked@.contains(y) implies y
        < post.install.results@.len() by {
        if post.install.marked@.len() == 0 {
        } else if post.install.marked@ == s.marked@ {
            assert(s.marked@.contains(y));
        } else {
            assert(post.install.marked@ == crate::filter::toggled(s.marked@, s.selected));
            if y != s.selected {
                assert(s.marked@.contains(y));
            }
        }
    }
}

/// A key leaves the remove mode well-formed.
pub proof fn lemma_remove_key_keeps_wf(
    pre: App,
    key: Key,
    ctx: Context,
    post: App,
    consumed: bool,
    action: Action,
)
    requires
        pre.remove.wf(),
        remove_key_post(pre, key, ctx, post, consumed, action),
    ensures
        post.remove.wf(),
        post.install == pre.install,
        post.shell == pre.shell,
{
    let s = pre.remove;
    axiom_spec_len(&s.packages);
    if s.selected < s.filtered@.len() {
        lemma_toggle_is_set_flip(s.marked@, s.filtered@[s.selected as int]);
        assert(s.filtered@.contains(s.filtered@[s.selected as int]));
    }
    lemma_filter_ascending(installed_views(s.packages@), lowercase_of(post.remove.input@));
    lemma_kept_marks_is_intersection(s.marked@, post.remove.filtered@);
    if post.remove.marked@.len() == 0 {
        assert forall|y: usize| !post.remove.marked@.contains(y) by {}
    }
}

/// A key leaves the shell mode well-formed.
pub proof fn lemma_shell_key_keeps_wf(
    pre: App,
    key: Key,
    ctx: Context,
    post: App,
    consumed: bool,
    action: Action,
)
    requires
        pre.shell.wf(),
        shell_key_post(pre, key, ctx, post, consumed, action),
    ensures
        post.shell.wf(),
        post.install == pre.install,
        post.remove == pre.remove,
{
}

/// A key leaves the application well-formed.
pub proof fn lemma_key_keeps_wf(pre: App, key: Key, ctx: Context, post: App, action: Action)
    requires
        pre.wf(),
        key_post(pre, key, ctx, post, action),
    ensures
        post.wf(),
{
    lemma_new_modes_wf(post.install, post.remove, post.shell);
    lemma_new_modes_wf(
        post.install,
        RemoveModeState { loading: false, ..post.remove },
        post.shell,
    );
    if install_key_post(pre, key, ctx, post, true, action) {
        lemma_install_key_keeps_wf(pre, key, ctx, post, true, action);
    }
    if install_key_post(pre, key, ctx, post, false, action) {
        lemma_install_key_keeps_wf(pre, key, ctx, post, false, action);
    }
    if remove_key_post(pre, key, ctx, post, true, action) {
        lemma_remove_key_keeps_wf(pre, key, ctx, post, true, action);
    }
    if remove_key_post(pre, key, ctx, post, false, action) {
        lemma_remove_key_keeps_wf(pre, key, ctx, post, false, action);
    }
    if shell_key_post(pre, key, ctx, post, true, action) {
        lemma_shell_key_keeps_wf(pre, key, ctx, post, true, action);
    }
    if shell_key_post(pre, key, ctx, post, false, action) {
        lemma_shell_key_keeps_wf(pre, key, ctx, post, false, action);
    }
    let esc = Key { code: crate::keys::KeyCode::Esc, ctrl: false, alt: false };
    if install_key_post(pre, esc, ctx, post, true, action) {
        lemma_install_key_keeps_wf(pre, esc, ctx, post, true, action);
    }
    if install_key_post(pre, esc, ctx, post, false, action) {
        lemma_install_key_keeps_wf(pre, esc, ctx, post, false, action);
    }
    if remove_key_post(pre, esc, ctx, post, true, action) {
        lemma_remove_key_keeps_wf(pre, esc, ctx, post, true, action);
    }
    if remove_key_post(pre, esc, ctx, post, false, action) {
        lemma_remove_key_keeps_wf(pre, esc, ctx, post, false, action);
    }
    if shell_key_post(pre, esc, ctx, post, true, action) {
        lemma_shell_key_keeps_wf(pre, esc, ctx, post, true, action);
    }
    if shell_key_post(pre, esc, ctx, post, false, action) {
        lemma_shell_key_keeps_wf(pre, esc, ctx, post, false, action);
    }
}

/// The report of a background task leaves the application well-formed.
pub proof fn lemma_event_keeps_wf(pre: App, event: AppEvent, post: App, action: Action)
    requires
        pre.wf(),
        event_post(pre, event, post, action),
    ensures
        post.wf(),
{
    match event {
        AppEvent::InstallSearchResults { results, seq } => {
            lemma_install_results_keep_wf(pre.install, results, seq, post.install);
        },
        AppEvent::RemovePackagesLoaded(packages) => {
            lemma_packages_loaded_keep_wf(pre, packages, post);
        },
        _ => {},
    }
}

/// The periodic tick leaves the application well-formed.
pub proof fn lemma_tick_keeps_wf(pre: App, now: u64, post: App, query: Action, install: Action)
    requires
        pre.wf(),
        tick_post(pre, now, post, query, install),
    ensures
        post.wf(),
{
}

} // verus!
