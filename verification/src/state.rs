//! The state of the application's modes and what a line of command output
//! does to a mode's display.

use crate::catalog::PackageManager;
use crate::debounce::Debouncer;
use crate::progress::{parse_progress_info, progress_of, ProgressInfo, ProgressView};
use crate::sysinfo::SystemInfo;
use crate::text::{
    contains_chars, find_char, find_from, from_chars, has_prefix, has_sub, lemma_texts_push, lines,
    owned, push_all, push_str, rows, slice_chars, split_lines, split_tokens, starts_with, texts,
    to_chars, tokens, trim, trim_chars,
};
use crate::types::{InstalledPackage, PackageDetail, PackageInfo, UpdateOutput};
use vstd::prelude::*;

verus! {

// ---------------------------------------------------------------------------
// Modes and phases
// ---------------------------------------------------------------------------

/// The top-level mode; exactly one is active.
#[derive(Debug, Clone, Copy, PartialEq, Eq, Structural)]
pub enum AppMode {
    Dashboard,
    Update,
    Install,
    Remove,
    Query,
    Settings,
    Shell,
}

#[derive(Debug, Clone, Copy, PartialEq, Eq, Structural)]
pub enum UpdatePhase {
    PackageManagerCheck,
    PreviewingUpdates,
    Updating,
    UpdateComplete,
    Analyzing,
    AnalysisComplete,
    Error,
}

#[derive(Debug, Clone, Copy, PartialEq, Eq, Structural)]
pub enum ViewMode {
    UpdateLog,
    AIAnalysis,
}

#[derive(Debug, Clone, Copy, PartialEq, Eq, Structural)]
pub enum QueryPanel {
    Local,
    Remote,
}

#[derive(Debug, Clone, Copy, PartialEq, Eq, Structural)]
pub enum QueryView {
    List,
    Detail,
}

#[derive(Debug, Clone, Copy, PartialEq, Eq, Structural)]
pub enum FileListMode {
    Files,
    Directories,
}

#[derive(Debug, Clone, Copy, PartialEq, Eq, Structural)]
pub enum InstallPhase {
    Searching,
    PreviewingInstall,
    Installing,
    InstallComplete,
    Analyzing,
    AnalysisComplete,
    Error,
}

#[derive(Debug, Clone, Copy, PartialEq, Eq, Structural)]
pub enum RemovePhase {
    Browsing,
    PreviewingRemove,
    Removing,
    RemoveComplete,
    Analyzing,
    AnalysisComplete,
    Error,
}

#[derive(Debug, Clone, Copy, PartialEq, Eq, Structural)]
pub enum ShellPhase {
    Input,
    Running,
    Done,
    Error,
}

/// One row of the settings page.
#[derive(Debug, Clone)]
pub enum SettingsItem {
    /// A heading; it cannot be selected.
    Section(String),
    /// A switch.
    Toggle { label: String, key: String, value: bool },
    /// A text field.
    TextEdit { label: String, key: String, value: String, masked: bool },
}

/// What the background tasks report back.
#[derive(Debug)]
pub enum AppEvent {
    PackageManagerDetected(PackageManager),
    SystemInfoDetected(SystemInfo),
    UpdateLine(String),
    UpdateComplete { output: UpdateOutput, packages_before: Option<String>, packages_after: Option<String> },
    AnalysisComplete(String),
    ReportSaved(String),
    Error(String),
    InstalledCount(usize),
    QueryLocalResults { results: Vec<PackageInfo>, seq: u64 },
    QueryRemoteResults { results: Vec<PackageInfo>, seq: u64 },
    QueryDetailLoaded { detail: PackageDetail, files: Vec<String>, dirs: Vec<String> },
    UpdatePreviewReady(Vec<String>),
    InstallSearchResults { results: Vec<PackageInfo>, seq: u64 },
    InstallPreviewReady(Vec<String>),
    InstallLine(String),
    InstallComplete { output: UpdateOutput },
    InstallAnalysisComplete(String),
    RemovePackagesLoaded(Vec<InstalledPackage>),
    RemovePreviewReady(Vec<String>),
    RemoveLine(String),
    RemoveComplete { output: UpdateOutput },
    RemoveAnalysisComplete(String),
    ShellLine(String),
    ShellComplete { output: UpdateOutput },
}

// ---------------------------------------------------------------------------
// Mode states
// ---------------------------------------------------------------------------

pub struct UpdateModeState {
    pub phase: UpdatePhase,
    pub view_mode: ViewMode,
    pub output: Option<UpdateOutput>,
    pub lines: Vec<String>,
    pub progress: String,
    pub progress_info: ProgressInfo,
    pub last_line_is_progress: bool,
    pub packages_before: Option<String>,
    pub packages_after: Option<String>,
    pub analysis: Option<String>,
    pub scroll: usize,
    pub report_path: Option<String>,
    pub preview: Vec<String>,
}

pub struct QueryModeState {
    pub input: String,
    pub cursor: usize,
    pub panel: QueryPanel,
    pub view: QueryView,
    pub local_results: Vec<PackageInfo>,
    pub remote_results: Vec<PackageInfo>,
    pub local_selected: usize,
    pub remote_selected: usize,
    pub detail: Option<PackageDetail>,
    pub files: Vec<String>,
    pub dirs: Vec<String>,
    pub file_mode: FileListMode,
    pub detail_scroll: usize,
    pub searching: bool,
    pub search: Debouncer,
}

pub struct InstallModeState {
    pub phase: InstallPhase,
    pub input: String,
    pub cursor: usize,
    pub results: Vec<PackageInfo>,
    pub selected: usize,
    /// The marked entries of `results`, by index, in the order they were
    /// marked; none occurs twice.
    pub marked: Vec<usize>,
    pub preview: Vec<String>,
    pub lines: Vec<String>,
    pub output: Option<UpdateOutput>,
    pub progress: String,
    pub progress_info: ProgressInfo,
    pub last_line_is_progress: bool,
    pub analysis: Option<String>,
    pub scroll: usize,
    pub searching: bool,
    pub search: Debouncer,
    pub view_mode: ViewMode,
    pub report_path: Option<String>,
}

pub struct RemoveModeState {
    pub phase: RemovePhase,
    pub input: String,
    pub cursor: usize,
    pub packages: Vec<InstalledPackage>,
    /// The packages that pass the filter, by index into `packages`.
    pub filtered: Vec<usize>,
    pub selected: usize,
    /// The marked packages, by index into `packages`; none occurs twice.
    pub marked: Vec<usize>,
    pub preview: Vec<String>,
    pub lines: Vec<String>,
    pub output: Option<UpdateOutput>,
    pub progress: String,
    pub progress_info: ProgressInfo,
    pub last_line_is_progress: bool,
    pub analysis: Option<String>,
    pub scroll: usize,
    pub loading: bool,
    pub view_mode: ViewMode,
    pub report_path: Option<String>,
}

pub struct SettingsModeState {
    pub items: Vec<SettingsItem>,
    pub selected: usize,
    pub editing: bool,
    pub edit_buffer: String,
    pub edit_cursor: usize,
    pub message: Option<String>,
    pub scroll: usize,
}

pub struct ShellModeState {
    pub input: String,
    pub cursor: usize,
    pub phase: ShellPhase,
    pub lines: Vec<String>,
    pub scroll: usize,
    /// The commands run so far; it outlives every change of mode.
    pub history: Vec<String>,
    /// Where in the history the user is browsing, if at all.
    pub history_idx: Option<usize>,
    pub progress: String,
    pub progress_info: ProgressInfo,
    pub last_line_is_progress: bool,
    pub output: Option<UpdateOutput>,
}

// ---------------------------------------------------------------------------
// Lines of output
// ---------------------------------------------------------------------------

/// The marker of a progress update among the lines that reach a mode.
pub const PROGRESS_PREFIX: &'static str = "PROGRESS:";

/// The marker of the progress line within the display.
pub const PROGRESS_LINE_PREFIX: &'static str = "PROGRESS_LINE:";

/// The part of a mode that shows command output.
pub struct LogView {
    pub lines: Seq<Seq<char>>,
    pub scroll: usize,
    pub progress: ProgressView,
    pub last_line_is_progress: bool,
}

/// The label `(n/m) action` of a line `(n/m) action ...`, if it is one.
pub open spec fn action_label(line: Seq<char>) -> Option<Seq<char>> {
    let t = trim(line);
    if !(t.len() > 0 && t[0] == '(') {
        None
    } else {
        let end = find_from(t, 0, ')');
        if end >= t.len() {
            None
        } else {
            let inner = trim(t.subrange(1, end));
            let rest = tokens(trim(t.subrange(end + 1, t.len() as int)));
            if !has_sub(inner, "/"@) || rest.len() == 0 {
                None
            } else {
                Some("("@ + inner + ") "@ + rest[0])
            }
        }
    }
}

pub open spec fn last_index(len: nat) -> usize {
    if len == 0 {
        0
    } else {
        (len - 1) as usize
    }
}

/// The display after one more line arrived.
///
/// * A progress update replaces the progress line when that is the last
///   line, else it is appended as the new progress line; either way it is
///   parsed for the status bar.
/// * Any other line is appended; a line `(n/m) action` also becomes the
///   label of the status bar.
///
/// The display scrolls to the line that was added.
pub open spec fn add_line_spec(line: Seq<char>, v: LogView) -> LogView {
    if has_prefix(line, PROGRESS_PREFIX@) {
        let content = trim(line.subrange(PROGRESS_PREFIX@.len() as int, line.len() as int));
        let shown = PROGRESS_LINE_PREFIX@ + content;
        if v.last_line_is_progress {
            LogView {
                lines: if v.lines.len() > 0 {
                    v.lines.update(v.lines.len() - 1, shown)
                } else {
                    v.lines
                },
                progress: progress_of(content),
                ..v
            }
        } else {
            LogView {
                lines: v.lines.push(shown),
                scroll: last_index(v.lines.len() + 1),
                progress: progress_of(content),
                last_line_is_progress: true,
            }
        }
    } else {
        LogView {
            lines: v.lines.push(line),
            scroll: if v.lines.len() + 1 > 1 {
                last_index(v.lines.len() + 1)
            } else {
                v.scroll
            },
            progress: match action_label(line) {
                Some(label) => ProgressView { label, raw: label, ..v.progress },
                None => v.progress,
            },
            last_line_is_progress: false,
        }
    }
}

/// Reads the label off a line `(n/m) action ...`.
pub fn extract_action_label(line: &str) -> (r: Option<String>)
    ensures
        match r {
            Some(s) => action_label(line@) == Some(s@),
            None => action_label(line@) is None,
        },
{
    let c = to_chars(line);
    let t = trim_chars(c.as_slice());
    if !(t.len() > 0 && t[0] == '(') {
        return None;
    }
    let end = find_char(t.as_slice(), 0, ')');
    if end >= t.len() {
        return None;
    }
    proof {
        crate::text::lemma_find_from_bounds(t@, 0, ')');
    }
    let inner_raw = slice_chars(t.as_slice(), 1, end);
    let inner = trim_chars(inner_raw.as_slice());
    let rest_raw = slice_chars(t.as_slice(), end + 1, t.len());
    let rest_trimmed = trim_chars(rest_raw.as_slice());
    let rest = split_tokens(rest_trimmed.as_slice());
    let slash = to_chars("/");
    if !contains_chars(inner.as_slice(), slash.as_slice()) || rest.len() == 0 {
        return None;
    }
    assert(rows(rest@)[0] == rest@[0]@);
    let mut out: Vec<char> = Vec::new();
    push_str(&mut out, "(");
    push_all(&mut out, inner.as_slice());
    push_str(&mut out, ") ");
    push_all(&mut out, rest[0].as_slice());
    assert(out@ =~= "("@ + inner@ + ") "@ + rest@[0]@);
    Some(from_chars(out.as_slice()))
}

fn last_of(len: usize) -> (r: usize)
    ensures
        r == last_index(len as nat),
{
    if len == 0 {
        0
    } else {
        len - 1
    }
}

/// Takes one line of command output into a display.
pub fn handle_add_line(
    line: String,
    lines: &mut Vec<String>,
    scroll: &mut usize,
    progress_info: &mut ProgressInfo,
    last_line_is_progress: &mut bool,
)
    ensures
        (LogView {
            lines: texts(final(lines)@),
            scroll: *final(scroll),
            progress: final(progress_info)@,
            last_line_is_progress: *final(last_line_is_progress),
        }) == add_line_spec(
            line@,
            LogView {
                lines: texts(old(lines)@),
                scroll: *old(scroll),
                progress: old(progress_info)@,
                last_line_is_progress: *old(last_line_is_progress),
            },
        ),
{
    let c = to_chars(line.as_str());
    let prefix = to_chars(PROGRESS_PREFIX);
    if starts_with(c.as_slice(), PROGRESS_PREFIX) {
        let rest = slice_chars(c.as_slice(), prefix.len(), c.len());
        let content = trim_chars(rest.as_slice());
        let content_text = from_chars(content.as_slice());
        *progress_info = parse_progress_info(content_text.as_str());
        let mut shown: Vec<char> = Vec::new();
        push_str(&mut shown, PROGRESS_LINE_PREFIX);
        push_all(&mut shown, content.as_slice());
        let shown_text = from_chars(shown.as_slice());
        if *last_line_is_progress {
            if lines.len() > 0 {
                let ghost before = texts(lines@);
                let _ = lines.pop();
                lines.push(shown_text);
                assert(texts(lines@) =~= before.update(before.len() - 1, shown@));
            }
        } else {
            proof {
                lemma_texts_push(lines@, shown_text);
            }
            lines.push(shown_text);
            *last_line_is_progress = true;
            *scroll = last_of(lines.len());
        }
    } else {
        *last_line_is_progress = false;
        match extract_action_label(line.as_str()) {
            Some(label) => {
                progress_info.label = label.clone();
                progress_info.raw = label;
            },
            None => {},
        }
        proof {
            lemma_texts_push(lines@, line);
        }
        lines.push(line);
        if lines.len() > 1 {
            *scroll = last_of(lines.len());
        }
    }
}

// ---------------------------------------------------------------------------
// What a mode shows
// ---------------------------------------------------------------------------

/// The notice shown while the analysis is awaited.
pub const ANALYSIS_PENDING: &'static str = "AI 分析中...";

/// The lines a mode shows: in the log view the lines of the finished run's
/// output, else the lines received so far, else the waiting notice; in the
/// analysis view the lines of the analysis, else the pending notice.
pub open spec fn mode_content(
    view_mode: ViewMode,
    output: Option<UpdateOutput>,
    lines_so_far: Seq<Seq<char>>,
    analysis: Option<String>,
    waiting: Seq<char>,
) -> Seq<Seq<char>> {
    match view_mode {
        ViewMode::UpdateLog => match output {
            Some(o) => lines(o.stdout@ + "\n"@ + o.stderr@),
            None => if lines_so_far.len() > 0 {
                lines_so_far
            } else {
                seq![waiting]
            },
        },
        ViewMode::AIAnalysis => match analysis {
            Some(a) => lines(a@),
            None => seq![ANALYSIS_PENDING@],
        },
    }
}

/// The strings of a list of character rows.
pub fn strings_of(v: &Vec<Vec<char>>) -> (out: Vec<String>)
    ensures
        texts(out@) == rows(v@),
{
    let mut out: Vec<String> = Vec::new();
    let mut i: usize = 0;
    while i < v.len()
        invariant
            i <= v.len(),
            out@.len() == i,
            forall|k: int| 0 <= k < i ==> out@[k]@ == v@[k]@,
        decreases v.len() - i,
    {
        out.push(from_chars(v[i].as_slice()));
        i += 1;
    }
    assert(texts(out@) =~= rows(v@));
    out
}

/// A copy of a list of strings.
pub fn copy_texts(v: &Vec<String>) -> (out: Vec<String>)
    ensures
        texts(out@) == texts(v@),
        out@.len() == v@.len(),
{
    let mut out: Vec<String> = Vec::new();
    let mut i: usize = 0;
    while i < v.len()
        invariant
            i <= v.len(),
            out@.len() == i,
            forall|k: int| 0 <= k < i ==> out@[k]@ == v@[k]@,
        decreases v.len() - i,
    {
        out.push(v[i].clone());
        i += 1;
    }
    assert(texts(out@) =~= texts(v@));
    out
}

fn text_lines(s: &str) -> (out: Vec<String>)
    ensures
        texts(out@) == lines(s@),
{
    let c = to_chars(s);
    let ls = split_lines(c.as_slice());
    strings_of(&ls)
}

/// The lines a mode shows.
pub fn get_mode_content(
    view_mode: &ViewMode,
    output: &Option<UpdateOutput>,
    lines_so_far: &Vec<String>,
    analysis: &Option<String>,
    waiting_msg: &str,
) -> (content: Vec<String>)
    ensures
        texts(content@) == mode_content(
            *view_mode,
            *output,
            texts(lines_so_far@),
            *analysis,
            waiting_msg@,
        ),
{
    match view_mode {
        ViewMode::UpdateLog => match output {
            Some(o) => {
                let all = o.combined_output();
                text_lines(all.as_str())
            },
            None => {
                if lines_so_far.len() > 0 {
                    copy_texts(lines_so_far)
                } else {
                    let mut v: Vec<String> = Vec::new();
                    v.push(owned(waiting_msg));
                    assert(texts(v@) =~= seq![waiting_msg@]);
                    v
                }
            },
        },
        ViewMode::AIAnalysis => match analysis {
            Some(a) => text_lines(a.as_str()),
            None => {
                let mut v: Vec<String> = Vec::new();
                v.push(owned(ANALYSIS_PENDING));
                assert(texts(v@) =~= seq![ANALYSIS_PENDING@]);
                v
            },
        },
    }
}

// ---------------------------------------------------------------------------
// Scrolling
// ---------------------------------------------------------------------------

/// The farthest a display of `total` lines scrolls when `visible` of them
/// fit.
pub open spec fn max_scroll(total: usize, visible: usize) -> usize {
    if total > visible {
        (total - visible) as usize
    } else {
        0
    }
}

pub fn scroll_limit(total: usize, visible: usize) -> (r: usize)
    ensures
        r == max_scroll(total, visible),
{
    if total > visible {
        total - visible
    } else {
        0
    }
}

/// One line up, stopping at the top.
pub fn scrolled_up(scroll: usize, amount: usize) -> (r: usize)
    ensures
        r == if scroll > amount {
            scroll - amount
        } else {
            0
        },
{
    if scroll > amount {
        scroll - amount
    } else {
        0
    }
}

/// One line down while the end is not reached.
pub fn scrolled_down(scroll: usize, total: usize, visible: usize) -> (r: usize)
    ensures
        r == if scroll < max_scroll(total, visible) {
            scroll + 1
        } else {
            scroll as int
        },
{
    if scroll < scroll_limit(total, visible) {
        scroll + 1
    } else {
        scroll
    }
}

/// A page down, stopping at the end.
pub fn paged_down(scroll: usize, page: usize, total: usize, visible: usize) -> (r: usize)
    ensures
        r == if scroll + page < max_scroll(total, visible) {
            scroll + page
        } else {
            max_scroll(total, visible) as int
        },
{
    let limit = scroll_limit(total, visible);
    if page < limit && scroll < limit - page {
        scroll + page
    } else {
        limit
    }
}

/// The scroll offset brought back into range.
pub fn clamped(scroll: usize, total: usize, visible: usize) -> (r: usize)
    ensures
        r == if scroll > max_scroll(total, visible) {
            max_scroll(total, visible)
        } else {
            scroll
        },
{
    let limit = scroll_limit(total, visible);
    if scroll > limit {
        limit
    } else {
        scroll
    }
}

/// The selection one entry down in a list of `len` entries.
pub fn selected_down(selected: usize, len: usize) -> (r: usize)
    ensures
        r == if selected + 1 < len {
            selected + 1
        } else {
            selected as int
        },
{
    if len > 0 && selected < len - 1 {
        selected + 1
    } else {
        selected
    }
}

/// The lines of a terminal of `term_height` rows that are left for content
/// between header and footer.
pub fn visible_content_height(term_height: u16) -> (r: usize)
    ensures
        r == if term_height > 8 {
            term_height - 8
        } else {
            0
        },
{
    if term_height > 8 {
        (term_height - 8) as usize
    } else {
        0
    }
}

// ---------------------------------------------------------------------------
// Constructors and the methods of single modes
// ---------------------------------------------------------------------------

impl UpdateModeState {
    /// The state the mode starts in.
    pub open spec fn is_new(self) -> bool {
        &&& self.phase == UpdatePhase::PackageManagerCheck
        &&& self.view_mode == ViewMode::UpdateLog
        &&& self.output is None
        &&& self.lines@.len() == 0
        &&& self.progress@.len() == 0
        &&& self.progress_info@ == progress_of(Seq::empty())
        &&& !self.last_line_is_progress
        &&& self.packages_before is None
        &&& self.packages_after is None
        &&& self.analysis is None
        &&& self.scroll == 0
        &&& self.report_path is None
        &&& self.preview@.len() == 0
    }

    pub fn new() -> (s: UpdateModeState)
        ensures
            s.is_new(),
    {
        UpdateModeState {
            phase: UpdatePhase::PackageManagerCheck,
            view_mode: ViewMode::UpdateLog,
            output: None,
            lines: Vec::new(),
            progress: String::new(),
            progress_info: ProgressInfo::empty(),
            last_line_is_progress: false,
            packages_before: None,
            packages_after: None,
            analysis: None,
            scroll: 0,
            report_path: None,
            preview: Vec::new(),
        }
    }

    pub open spec fn log_view(self) -> LogView {
        LogView {
            lines: texts(self.lines@),
            scroll: self.scroll,
            progress: self.progress_info@,
            last_line_is_progress: self.last_line_is_progress,
        }
    }

    pub fn get_content(&self) -> (content: Vec<String>)
        ensures
            texts(content@) == mode_content(
                self.view_mode,
                self.output,
                texts(self.lines@),
                self.analysis,
                "等待更新..."@,
            ),
    {
        get_mode_content(&self.view_mode, &self.output, &self.lines, &self.analysis, "等待更新...")
    }

    pub fn add_line(&mut self, line: String)
        ensures
            final(self).log_view() == add_line_spec(line@, old(self).log_view()),
            *final(self) == (UpdateModeState {
                lines: final(self).lines,
                scroll: final(self).scroll,
                progress_info: final(self).progress_info,
                last_line_is_progress: final(self).last_line_is_progress,
                ..*old(self)
            }),
    {
        handle_add_line(
            line,
            &mut self.lines,
            &mut self.scroll,
            &mut self.progress_info,
            &mut self.last_line_is_progress,
        );
    }

    pub fn scroll_up(&mut self)
        ensures
            *final(self) == (UpdateModeState {
                scroll: if old(self).scroll > 0 {
                    (old(self).scroll - 1) as usize
                } else {
                    0
                },
                ..*old(self)
            }),
    {
        self.scroll = scrolled_up(self.scroll, 1);
    }

    pub fn scroll_down(&mut self, max_lines: usize, visible_height: usize)
        ensures
            *final(self) == (UpdateModeState {
                scroll: if old(self).scroll < max_scroll(max_lines, visible_height) {
                    (old(self).scroll + 1) as usize
                } else {
                    old(self).scroll
                },
                ..*old(self)
            }),
    {
        self.scroll = scrolled_down(self.scroll, max_lines, visible_height);
    }

    pub fn scroll_page_up(&mut self, page_size: usize)
        ensures
            *final(self) == (UpdateModeState {
                scroll: if old(self).scroll > page_size {
                    (old(self).scroll - page_size) as usize
                } else {
                    0
                },
                ..*old(self)
            }),
    {
        self.scroll = scrolled_up(self.scroll, page_size);
    }

    pub fn scroll_page_down(&mut self, page_size: usize, max_lines: usize, visible_height: usize)
        ensures
            *final(self) == (UpdateModeState {
                scroll: if old(self).scroll + page_size < max_scroll(max_lines, visible_height) {
                    (old(self).scroll + page_size) as usize
                } else {
                    max_scroll(max_lines, visible_height)
                },
                ..*old(self)
            }),
    {
        self.scroll = paged_down(self.scroll, page_size, max_lines, visible_height);
    }

    pub fn reset_scroll(&mut self)
        ensures
            *final(self) == (UpdateModeState { scroll: 0, ..*old(self) }),
    {
        self.scroll = 0;
    }

    pub fn clamp_scroll(&mut self, max_lines: usize, visible_height: usize)
        ensures
            *final(self) == (UpdateModeState {
                scroll: if old(self).scroll > max_scroll(max_lines, visible_height) {
                    max_scroll(max_lines, visible_height)
                } else {
                    old(self).scroll
                },
                ..*old(self)
            }),
    {
        self.scroll = clamped(self.scroll, max_lines, visible_height);
    }
}

impl QueryModeState {
    /// The state the mode starts in.
    pub open spec fn is_new(self) -> bool {
        &&& self.input@.len() == 0
        &&& self.cursor == 0
        &&& self.panel == QueryPanel::Local
        &&& self.view == QueryView::List
        &&& self.local_results@.len() == 0
        &&& self.remote_results@.len() == 0
        &&& self.local_selected == 0
        &&& self.remote_selected == 0
        &&& self.detail is None
        &&& self.files@.len() == 0
        &&& self.dirs@.len() == 0
        &&& self.file_mode == FileListMode::Files
        &&& self.detail_scroll == 0
        &&& !self.searching
        &&& self.search.deadline is None
        &&& self.search.issued == 0
    }

    pub fn new() -> (s: QueryModeState)
        ensures
            s.is_new(),
    {
        QueryModeState {
            input: String::new(),
            cursor: 0,
            panel: QueryPanel::Local,
            view: QueryView::List,
            local_results: Vec::new(),
            remote_results: Vec::new(),
            local_selected: 0,
            remote_selected: 0,
            detail: None,
            files: Vec::new(),
            dirs: Vec::new(),
            file_mode: FileListMode::Files,
            detail_scroll: 0,
            searching: false,
            search: Debouncer::new(),
        }
    }
}

impl InstallModeState {
    /// The state the mode starts in.
    pub open spec fn is_new(self) -> bool {
        &&& self.phase == InstallPhase::Searching
        &&& self.input@.len() == 0
        &&& self.cursor == 0
        &&& self.results@.len() == 0
        &&& self.selected == 0
        &&& self.marked@.len() == 0
        &&& self.preview@.len() == 0
        &&& self.lines@.len() == 0
        &&& self.output is None
        &&& self.progress_info@ == progress_of(Seq::empty())
        &&& !self.last_line_is_progress
        &&& self.analysis is None
        &&& self.scroll == 0
        &&& !self.searching
        &&& self.search.deadline is None
        &&& self.search.issued == 0
        &&& self.view_mode == ViewMode::UpdateLog
        &&& self.report_path is None
    }

    pub fn new() -> (s: InstallModeState)
        ensures
            s.is_new(),
    {
        InstallModeState {
            phase: InstallPhase::Searching,
            input: String::new(),
            cursor: 0,
            results: Vec::new(),
            selected: 0,
            marked: Vec::new(),
            preview: Vec::new(),
            lines: Vec::new(),
            output: None,
            progress: String::new(),
            progress_info: ProgressInfo::empty(),
            last_line_is_progress: false,
            analysis: None,
            scroll: 0,
            searching: false,
            search: Debouncer::new(),
            view_mode: ViewMode::UpdateLog,
            report_path: None,
        }
    }

    pub open spec fn log_view(self) -> LogView {
        LogView {
            lines: texts(self.lines@),
            scroll: self.scroll,
            progress: self.progress_info@,
            last_line_is_progress: self.last_line_is_progress,
        }
    }

    pub fn get_content(&self) -> (content: Vec<String>)
        ensures
            texts(content@) == mode_content(
                self.view_mode,
                self.output,
                texts(self.lines@),
                self.analysis,
                "等待安装..."@,
            ),
    {
        get_mode_content(&self.view_mode, &self.output, &self.lines, &self.analysis, "等待安装...")
    }

    pub fn add_line(&mut self, line: String)
        ensures
            final(self).log_view() == add_line_spec(line@, old(self).log_view()),
            *final(self) == (InstallModeState {
                lines: final(self).lines,
                scroll: final(self).scroll,
                progress_info: final(self).progress_info,
                last_line_is_progress: final(self).last_line_is_progress,
                ..*old(self)
            }),
    {
        handle_add_line(
            line,
            &mut self.lines,
            &mut self.scroll,
            &mut self.progress_info,
            &mut self.last_line_is_progress,
        );
    }
}

impl RemoveModeState {
    /// The state the mode starts in.
    pub open spec fn is_new(self) -> bool {
        &&& self.phase == RemovePhase::Browsing
        &&& self.input@.len() == 0
        &&& self.cursor == 0
        &&& self.packages@.len() == 0
        &&& self.filtered@.len() == 0
        &&& self.selected == 0
        &&& self.marked@.len() == 0
        &&& self.preview@.len() == 0
        &&& self.lines@.len() == 0
        &&& self.output is None
        &&& self.progress_info@ == progress_of(Seq::empty())
        &&& !self.last_line_is_progress
        &&& self.analysis is None
        &&& self.scroll == 0
        &&& !self.loading
        &&& self.view_mode == ViewMode::UpdateLog
        &&& self.report_path is None
    }

    pub fn new() -> (s: RemoveModeState)
        ensures
            s.is_new(),
    {
        RemoveModeState {
            phase: RemovePhase::Browsing,
            input: String::new(),
            cursor: 0,
            packages: Vec::new(),
            filtered: Vec::new(),
            selected: 0,
            marked: Vec::new(),
            preview: Vec::new(),
            lines: Vec::new(),
            output: None,
            progress: String::new(),
            progress_info: ProgressInfo::empty(),
            last_line_is_progress: false,
            analysis: None,
            scroll: 0,
            loading: false,
            view_mode: ViewMode::UpdateLog,
            report_path: None,
        }
    }

    pub open spec fn log_view(self) -> LogView {
        LogView {
            lines: texts(self.lines@),
            scroll: self.scroll,
            progress: self.progress_info@,
            last_line_is_progress: self.last_line_is_progress,
        }
    }

    pub fn get_content(&self) -> (content: Vec<String>)
        ensures
            texts(content@) == mode_content(
                self.view_mode,
                self.output,
                texts(self.lines@),
                self.analysis,
                "等待卸载..."@,
            ),
    {
        get_mode_content(&self.view_mode, &self.output, &self.lines, &self.analysis, "等待卸载...")
    }

    pub fn add_line(&mut self, line: String)
        ensures
            final(self).log_view() == add_line_spec(line@, old(self).log_view()),
            *final(self) == (RemoveModeState {
                lines: final(self).lines,
                scroll: final(self).scroll,
                progress_info: final(self).progress_info,
                last_line_is_progress: final(self).last_line_is_progress,
                ..*old(self)
            }),
    {
        handle_add_line(
            line,
            &mut self.lines,
            &mut self.scroll,
            &mut self.progress_info,
            &mut self.last_line_is_progress,
        );
    }
}

impl SettingsModeState {
    /// The state the mode starts in.
    pub open spec fn is_new(self) -> bool {
        &&& self.items@.len() == 0
        &&& self.selected == 0
        &&& !self.editing
        &&& self.edit_buffer@.len() == 0
        &&& self.edit_cursor == 0
        &&& self.message is None
        &&& self.scroll == 0
    }

    pub fn new() -> (s: SettingsModeState)
        ensures
            s.is_new(),
    {
        SettingsModeState {
            items: Vec::new(),
            selected: 0,
            editing: false,
            edit_buffer: String::new(),
            edit_cursor: 0,
            message: None,
            scroll: 0,
        }
    }
}

impl ShellModeState {
    /// The state the mode starts in.
    pub open spec fn is_new(self) -> bool {
        &&& self.input@.len() == 0
        &&& self.cursor == 0
        &&& self.phase == ShellPhase::Input
        &&& self.lines@.len() == 0
        &&& self.scroll == 0
        &&& self.history@.len() == 0
        &&& self.history_idx is None
        &&& self.progress@.len() == 0
        &&& self.progress_info@ == progress_of(Seq::empty())
        &&& !self.last_line_is_progress
        &&& self.output is None
    }

    pub fn new() -> (s: ShellModeState)
        ensures
            s.is_new(),
    {
        ShellModeState {
            input: String::new(),
            cursor: 0,
            phase: ShellPhase::Input,
            lines: Vec::new(),
            scroll: 0,
            history: Vec::new(),
            history_idx: None,
            progress: String::new(),
            progress_info: ProgressInfo::empty(),
            last_line_is_progress: false,
            output: None,
        }
    }

    pub open spec fn log_view(self) -> LogView {
        LogView {
            lines: texts(self.lines@),
            scroll: self.scroll,
            progress: self.progress_info@,
            last_line_is_progress: self.last_line_is_progress,
        }
    }

    pub fn add_line(&mut self, line: String)
        ensures
            final(self).log_view() == add_line_spec(line@, old(self).log_view()),
            *final(self) == (ShellModeState {
                lines: final(self).lines,
                scroll: final(self).scroll,
                progress_info: final(self).progress_info,
                last_line_is_progress: final(self).last_line_is_progress,
                ..*old(self)
            }),
    {
        handle_add_line(
            line,
            &mut self.lines,
            &mut self.scroll,
            &mut self.progress_info,
            &mut self.last_line_is_progress,
        );
    }

    /// The lines of the shell's display.
    pub fn get_content(&self) -> (content: Vec<String>)
        ensures
            texts(content@) == texts(self.lines@),
    {
        copy_texts(&self.lines)
    }
}

} // verus!
