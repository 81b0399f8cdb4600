//! What the answers of lookups do to the application: search results,
//! package descriptions, previews and the list of installed packages.

use crate::app::App;
use crate::filter::{filter_indices, kept_marks, lowercase_of};
use crate::state::{
    FileListMode, InstallModeState, QueryModeState, QueryView, RemoveModeState,
};
use crate::types::{installed_views, InstalledPackage, PackageDetail, PackageInfo};
use vstd::prelude::*;

verus! {

/// The query mode after an answer to a search. An answer that does not
/// carry the sequence number issued last is stale and changes nothing.
pub open spec fn query_results_post(
    pre: QueryModeState,
    local: bool,
    results: Vec<PackageInfo>,
    seq: u64,
    post: QueryModeState,
) -> bool {
    if seq != pre.search.issued {
        post == pre
    } else {
        let searching = if pre.search.deadline is None {
            false
        } else {
            pre.searching
        };
        if local {
            post == (QueryModeState {
                local_results: results,
                local_selected: 0,
                searching,
                ..pre
            })
        } else {
            post == (QueryModeState {
                remote_results: results,
                remote_selected: 0,
                searching,
                ..pre
            })
        }
    }
}

/// The install mode after an answer to a search.
pub open spec fn install_results_post(
    pre: InstallModeState,
    results: Vec<PackageInfo>,
    seq: u64,
    post: InstallModeState,
) -> bool {
    if seq != pre.search.issued {
        post == pre
    } else {
        &&& post.marked@.len() == 0
        &&& post == (InstallModeState {
            results,
            selected: 0,
            marked: post.marked,
            searching: if pre.search.deadline is None {
                false
            } else {
                pre.searching
            },
            ..pre
        })
    }
}

/// Once the answer to the latest search was taken, the answer to any
/// earlier one is dropped and leaves what is shown as it is.
pub proof fn lemma_stale_query_results_dropped(
    pre: QueryModeState,
    local: bool,
    latest: Vec<PackageInfo>,
    n: u64,
    mid: QueryModeState,
    late_local: bool,
    late: Vec<PackageInfo>,
    k: u64,
    post: QueryModeState,
)
    requires
        n == pre.search.issued,
        query_results_post(pre, local, latest, n, mid),
        k < n,
        query_results_post(mid, late_local, late, k, post),
    ensures
        post == mid,
        post.local_results == mid.local_results,
        post.remote_results == mid.remote_results,
{
}

/// The same for the install mode.
pub proof fn lemma_stale_install_results_dropped(
    pre: InstallModeState,
    latest: Vec<PackageInfo>,
    n: u64,
    mid: InstallModeState,
    late: Vec<PackageInfo>,
    k: u64,
    post: InstallModeState,
)
    requires
        n == pre.search.issued,
        install_results_post(pre, latest, n, mid),
        k < n,
        install_results_post(mid, late, k, post),
    ensures
        post == mid,
        post.results == mid.results,
{
}

/// The application after the installed packages arrived.
pub open spec fn packages_loaded_post(pre: App, packages: Vec<InstalledPackage>, post: App) -> bool {
    &&& post.remove.filtered@ == filter_indices(
        installed_views(packages@),
        lowercase_of(pre.remove.input@),
    )
    &&& post.remove.marked@ == kept_marks(pre.remove.marked@, post.remove.filtered@)
    &&& post == (App {
        remove: RemoveModeState {
            packages,
            loading: false,
            filtered: post.remove.filtered,
            selected: 0,
            marked: post.remove.marked,
            ..pre.remove
        },
        ..pre
    })
}

/// The application after the description of a package arrived.
pub open spec fn detail_shown(pre: App, detail: PackageDetail, files: Vec<String>, dirs: Vec<String>) -> App {
    App {
        query: QueryModeState {
            detail: Some(detail),
            files,
            dirs,
            file_mode: FileListMode::Files,
            detail_scroll: 0,
            view: QueryView::Detail,
            ..pre.query
        },
        ..pre
    }
}

impl App {
    /// An answer to a search of the query mode: taken when it answers the
    /// search issued last, dropped otherwise.
    pub fn on_query_results(&mut self, local: bool, results: Vec<PackageInfo>, seq: u64)
        ensures
            query_results_post(old(self).query, local, results, seq, final(self).query),
            *final(self) == (App { query: final(self).query, ..*old(self) }),
    {
        if self.query.search.accepts(seq) {
            if local {
                self.query.local_results = results;
                self.query.local_selected = 0;
            } else {
                self.query.remote_results = results;
                self.query.remote_selected = 0;
            }
            if !self.query.search.pending() {
                self.query.searching = false;
            }
        }
    }

    /// An answer to a search of the install mode.
    pub fn on_install_results(&mut self, results: Vec<PackageInfo>, seq: u64)
        ensures
            install_results_post(old(self).install, results, seq, final(self).install),
            *final(self) == (App { install: final(self).install, ..*old(self) }),
    {
        if self.install.search.accepts(seq) {
            self.install.results = results;
            self.install.selected = 0;
            self.install.marked = Vec::new();
            if !self.install.search.pending() {
                self.install.searching = false;
            }
        }
    }

    /// The description of a package arrived: the query mode shows it.
    pub fn on_detail_loaded(&mut self, detail: PackageDetail, files: Vec<String>, dirs: Vec<String>)
        ensures
            *final(self) == detail_shown(*old(self), detail, files, dirs),
    {
        self.query.detail = Some(detail);
        self.query.files = files;
        self.query.dirs = dirs;
        self.query.file_mode = FileListMode::Files;
        self.query.detail_scroll = 0;
        self.query.view = QueryView::Detail;
    }

    pub fn on_install_preview(&mut self, preview: Vec<String>)
        ensures
            *final(self) == (App {
                install: InstallModeState { preview, scroll: 0, ..old(self).install },
                ..*old(self)
            }),
    {
        self.install.preview = preview;
        self.install.scroll = 0;
    }

    pub fn on_remove_preview(&mut self, preview: Vec<String>)
        ensures
            *final(self) == (App {
                remove: RemoveModeState { preview, scroll: 0, ..old(self).remove },
                ..*old(self)
            }),
    {
        self.remove.preview = preview;
        self.remove.scroll = 0;
    }

    /// The installed packages arrived: the remove mode lists those that
    /// pass its filter.
    pub fn on_packages_loaded(&mut self, packages: Vec<InstalledPackage>)
        ensures
            packages_loaded_post(*old(self), packages, *final(self)),
    {
        self.remove.packages = packages;
        self.remove.loading = false;
        self.remove.apply_filter();
    }
}

} // verus!
