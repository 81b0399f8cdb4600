//! What the answers of the package manager's query commands mean: counts,
//! lists of files, and the previews shown before an install or a removal.

use crate::catalog::{push_word, push_words, PackageManager};
use crate::parser::{
    detail_fields, installed_packages, is_name_key, is_size_key, is_version_key, key_at, key_of,
    parse_installed_packages, parse_package_detail, parse_search_output, search_results, value_at,
    value_of,
};
use crate::text::{
    blank_str, decimal, decimal_chars, eq_str, find_char, find_from, from_chars, is_blank,
    lemma_texts_push, lines, owned, push_all, push_str, rows, slice_chars, split_lines, texts,
    to_chars,
};
use crate::types::{
    infos, installed_views, InstalledPackage, InstalledView, PackageDetail, PackageInfo,
    PackageInfoView,
};
use vstd::prelude::*;

verus! {

/// What a command that ran to its end came back with.
#[derive(Debug, Clone)]
pub struct CommandOutput {
    pub success: bool,
    pub stdout: String,
}

/// Why a query has no answer.
#[derive(Debug, Clone, Copy, PartialEq, Eq, Structural)]
pub enum QueryError {
    /// The command could not be started.
    Unavailable,
    /// The command ended in failure.
    Failed,
}

/// What a command printed, when it was started and succeeded. `None` as an
/// answer stands for a command that could not be started.
pub open spec fn printed(answer: Option<CommandOutput>) -> Option<Seq<char>> {
    match answer {
        Some(o) => if o.success {
            Some(o.stdout@)
        } else {
            None
        },
        None => None,
    }
}

/// Whether the command was started and succeeded.
pub fn succeeded(answer: &Option<CommandOutput>) -> (r: bool)
    ensures
        r == printed(*answer).is_some(),
{
    match answer {
        Some(o) => o.success,
        None => false,
    }
}

/// The texts of a list of rows.
pub fn row_texts(v: &Vec<Vec<char>>) -> (out: Vec<String>)
    ensures
        texts(out@) == rows(v@),
{
    let mut out: Vec<String> = Vec::new();
    let mut i: usize = 0;
    assert(texts(out@) =~= rows(v@).take(0));
    while i < v.len()
        invariant
            i <= v.len(),
            texts(out@) == rows(v@).take(i as int),
        decreases v.len() - i,
    {
        let s = from_chars(v[i].as_slice());
        proof {
            lemma_texts_push(out@, s);
            assert(rows(v@).take(i as int).push(s@) =~= rows(v@).take(i + 1));
        }
        out.push(s);
        i += 1;
    }
    assert(rows(v@).take(v.len() as int) =~= rows(v@));
    out
}

fn push_line(out: &mut Vec<String>, line: &[char])
    ensures
        texts(final(out)@) == texts(old(out)@).push(line@),
{
    let s = from_chars(line);
    proof {
        lemma_texts_push(out@, s);
    }
    out.push(s);
}

// ---------------------------------------------------------------------------
// Files and directories
// ---------------------------------------------------------------------------

/// The path on a line `package path` of a file listing: what follows the
/// first space.
pub open spec fn path_of(line: Seq<char>) -> Option<Seq<char>> {
    let p = find_from(line, 0, ' ');
    if 0 <= p < line.len() {
        Some(line.subrange(p + 1, line.len() as int))
    } else {
        None
    }
}

/// Whether a path names a directory: it ends in a slash.
pub open spec fn is_dir_path(p: Seq<char>) -> bool {
    p.len() > 0 && p.last() == '/'
}

/// The paths on the lines `ls`, in order: the directories when `dirs`, the
/// files when not.
pub open spec fn listed_paths(ls: Seq<Seq<char>>, dirs: bool) -> Seq<Seq<char>>
    decreases ls.len(),
{
    if ls.len() == 0 {
        Seq::empty()
    } else {
        let before = listed_paths(ls.drop_last(), dirs);
        match path_of(ls.last()) {
            Some(p) => if is_dir_path(p) == dirs {
                before.push(p)
            } else {
                before
            },
            None => before,
        }
    }
}

/// The paths of a file listing, given the answer to the listing command.
pub open spec fn paths_in(answer: Option<CommandOutput>, dirs: bool) -> Seq<Seq<char>> {
    match printed(answer) {
        Some(s) => listed_paths(lines(s), dirs),
        None => Seq::empty(),
    }
}

fn collect_paths(answer: &Option<CommandOutput>, dirs: bool) -> (out: Vec<String>)
    ensures
        texts(out@) == paths_in(*answer, dirs),
{
    let mut out: Vec<String> = Vec::new();
    assert(texts(out@) =~= Seq::<Seq<char>>::empty());
    if !succeeded(answer) {
        return out;
    }
    match answer {
        Some(o) => {
            let chars = to_chars(o.stdout.as_str());
            let ls = split_lines(chars.as_slice());
            let mut i: usize = 0;
            assert(rows(ls@).take(0) =~= Seq::<Seq<char>>::empty());
            while i < ls.len()
                invariant
                    i <= ls.len(),
                    texts(out@) == listed_paths(rows(ls@).take(i as int), dirs),
                decreases ls.len() - i,
            {
                let line = ls[i].as_slice();
                assert(rows(ls@).take(i + 1).drop_last() =~= rows(ls@).take(i as int));
                assert(rows(ls@).take(i + 1).last() == line@);
                let p = find_char(line, 0, ' ');
                if p < line.len() {
                    let path = slice_chars(line, p + 1, line.len());
                    let is_dir = path.len() > 0 && path[path.len() - 1] == '/';
                    if is_dir == dirs {
                        push_line(&mut out, path.as_slice());
                    }
                }
                i += 1;
            }
            assert(rows(ls@).take(ls.len() as int) =~= rows(ls@));
            out
        },
        None => out,
    }
}

// ---------------------------------------------------------------------------
// Previews
// ---------------------------------------------------------------------------

/// What a preview shows of one package.
pub struct Summary {
    pub name: Vec<char>,
    pub version: Vec<char>,
    pub size: Vec<char>,
    pub relation: Vec<char>,
}

/// The mathematical content of a [`Summary`].
pub struct SummaryView {
    pub name: Seq<char>,
    pub version: Seq<char>,
    pub size: Seq<char>,
    pub relation: Seq<char>,
}

impl View for Summary {
    type V = SummaryView;

    open spec fn view(&self) -> SummaryView {
        SummaryView {
            name: self.name@,
            version: self.version@,
            size: self.size@,
            relation: self.relation@,
        }
    }
}

pub open spec fn no_summary() -> SummaryView {
    SummaryView {
        name: Seq::empty(),
        version: Seq::empty(),
        size: Seq::empty(),
        relation: Seq::empty(),
    }
}

pub open spec fn names_download_size(k: Seq<char>) -> bool {
    k == "Download Size"@ || k == "下载大小"@
}

/// The key under which a description lists the packages that matter to the
/// preview: those the package depends on before an install, those that
/// depend on it before a removal.
pub open spec fn names_relation(k: Seq<char>, removal: bool) -> bool {
    if removal {
        k == "Required By"@ || k == "依赖它"@
    } else {
        k == "Depends On"@ || k == "依赖于"@
    }
}

/// The summary after a pair of key and value. Before an install the first
/// size that is given stays; before a removal the last installed size.
pub open spec fn noted_field(
    s: SummaryView,
    k: Seq<char>,
    v: Seq<char>,
    removal: bool,
) -> SummaryView {
    if is_name_key(k) {
        SummaryView { name: v, ..s }
    } else if is_version_key(k) {
        SummaryView { version: v, ..s }
    } else if is_size_key(k) || (!removal && names_download_size(k)) {
        if removal || s.size.len() == 0 {
            SummaryView { size: v, ..s }
        } else {
            s
        }
    } else if names_relation(k, removal) {
        SummaryView { relation: v, ..s }
    } else {
        s
    }
}

/// The summary after one more line of a description.
pub open spec fn summary_step(s: SummaryView, line: Seq<char>, removal: bool) -> SummaryView {
    let colon = find_from(line, 0, ':');
    if 0 <= colon < line.len() {
        noted_field(s, key_at(line, colon), value_at(line, colon), removal)
    } else {
        s
    }
}

/// The summary of the lines of a description.
pub open spec fn summary_scan(ls: Seq<Seq<char>>, removal: bool) -> SummaryView
    decreases ls.len(),
{
    if ls.len() == 0 {
        no_summary()
    } else {
        summary_step(summary_scan(ls.drop_last(), removal), ls.last(), removal)
    }
}

/// The summary of a package's description.
pub open spec fn summary_of(info: Seq<char>, removal: bool) -> SummaryView {
    summary_scan(lines(info), removal)
}

/// Whether a relation is worth a line: it names at least one package.
pub open spec fn relation_shown(relation: Seq<char>, removal: bool) -> bool {
    relation.len() > 0 && relation != "None"@ && !(removal && relation == "无"@)
}

pub open spec fn relation_label(removal: bool) -> Seq<char> {
    if removal {
        "    ⚠ 被依赖: "@
    } else {
        "    依赖: "@
    }
}

/// The lines of a preview for one summary.
pub open spec fn summary_lines(s: SummaryView, removal: bool) -> Seq<Seq<char>> {
    seq!["  "@ + s.name + " "@ + s.version] + (if s.size.len() > 0 {
        seq!["    大小: "@ + s.size]
    } else {
        Seq::empty()
    }) + (if relation_shown(s.relation, removal) {
        seq![relation_label(removal) + s.relation]
    } else {
        Seq::empty()
    }) + seq![Seq::empty()]
}

/// The lines of a preview for one package, given the answer to the
/// description command: nothing when it could not be started, a note when
/// it failed.
pub open spec fn entry_lines(
    package: Seq<char>,
    answer: Option<CommandOutput>,
    removal: bool,
) -> Seq<Seq<char>> {
    match answer {
        None => Seq::empty(),
        Some(o) => if o.success {
            summary_lines(summary_of(o.stdout@, removal), removal)
        } else {
            seq!["  "@ + package + " (未找到包信息)"@, Seq::empty()]
        },
    }
}

/// The lines of a preview for the first `n` packages.
pub open spec fn entries_lines(
    entries: Seq<(String, Option<CommandOutput>)>,
    n: int,
    removal: bool,
) -> Seq<Seq<char>>
    decreases n,
{
    if n <= 0 {
        Seq::empty()
    } else {
        entries_lines(entries, n - 1, removal) + entry_lines(
            entries[n - 1].0@,
            entries[n - 1].1,
            removal,
        )
    }
}

pub open spec fn removal_heading(count: nat, cascade: bool) -> Seq<char> {
    "将移除以下 "@ + decimal(count) + (if cascade {
        " 个包（含孤立依赖）:"@
    } else {
        " 个包:"@
    })
}

pub open spec fn indented_lines(ls: Seq<Seq<char>>) -> Seq<Seq<char>> {
    Seq::new(ls.len(), |i: int| "  "@ + ls[i])
}

/// The list of what a removal takes away, under its heading; nothing when
/// the list is empty.
pub open spec fn removal_list(printed_list: Seq<char>, cascade: bool) -> Seq<Seq<char>> {
    let ls = lines(printed_list);
    if ls.len() == 0 {
        Seq::empty()
    } else {
        seq![removal_heading(ls.len(), cascade)] + indented_lines(ls)
    }
}

/// The list at the end of a removal's preview: that of the removal with
/// orphaned dependencies when its dry run succeeded, that of the plain
/// removal when the first failed and the second succeeded.
pub open spec fn removal_tail(
    cascade: Option<CommandOutput>,
    plain: Option<CommandOutput>,
) -> Seq<Seq<char>> {
    match cascade {
        None => Seq::empty(),
        Some(o) => if o.success {
            removal_list(o.stdout@, true)
        } else {
            match printed(plain) {
                Some(s) => removal_list(s, false),
                None => Seq::empty(),
            }
        },
    }
}

fn note_field(s: &mut Summary, k: Vec<char>, v: Vec<char>, removal: bool)
    ensures
        final(s)@ == noted_field(old(s)@, k@, v@, removal),
{
    let key = k.as_slice();
    if eq_str(key, "Name") || eq_str(key, "名称") || eq_str(key, "名字") {
        s.name = v;
    } else if eq_str(key, "Version") || eq_str(key, "版本") {
        s.version = v;
    } else if eq_str(key, "Installed Size") || eq_str(key, "安装大小") || eq_str(
        key,
        "安装后大小",
    ) || (!removal && (eq_str(key, "Download Size") || eq_str(key, "下载大小"))) {
        if removal || s.size.len() == 0 {
            s.size = v;
        }
    } else if removal {
        if eq_str(key, "Required By") || eq_str(key, "依赖它") {
            s.relation = v;
        }
    } else {
        if eq_str(key, "Depends On") || eq_str(key, "依赖于") {
            s.relation = v;
        }
    }
}

/// Reads the summary off a package's description.
pub fn summarize(info: &str, removal: bool) -> (s: Summary)
    ensures
        s@ == summary_of(info@, removal),
{
    let chars = to_chars(info);
    let ls = split_lines(chars.as_slice());
    let mut s = Summary {
        name: Vec::new(),
        version: Vec::new(),
        size: Vec::new(),
        relation: Vec::new(),
    };
    let mut i: usize = 0;
    assert(rows(ls@).take(0) =~= Seq::<Seq<char>>::empty());
    assert(s@ == no_summary());
    while i < ls.len()
        invariant
            i <= ls.len(),
            s@ == summary_scan(rows(ls@).take(i as int), removal),
        decreases ls.len() - i,
    {
        let line = ls[i].as_slice();
        assert(rows(ls@).take(i + 1).drop_last() =~= rows(ls@).take(i as int));
        assert(rows(ls@).take(i + 1).last() == line@);
        let colon = find_char(line, 0, ':');
        if colon < line.len() {
            let k = key_of(line, colon);
            let v = value_of(line, colon);
            note_field(&mut s, k, v, removal);
        }
        i += 1;
    }
    assert(rows(ls@).take(ls.len() as int) =~= rows(ls@));
    s
}

fn push_summary(out: &mut Vec<String>, s: &Summary, removal: bool)
    ensures
        texts(final(out)@) == texts(old(out)@) + summary_lines(s@, removal),
{
    let mut head: Vec<char> = Vec::new();
    push_str(&mut head, "  ");
    push_all(&mut head, s.name.as_slice());
    push_str(&mut head, " ");
    push_all(&mut head, s.version.as_slice());
    push_line(out, head.as_slice());
    if s.size.len() > 0 {
        let mut line: Vec<char> = Vec::new();
        push_str(&mut line, "    大小: ");
        push_all(&mut line, s.size.as_slice());
        push_line(out, line.as_slice());
    }
    let shown = s.relation.len() > 0 && !eq_str(s.relation.as_slice(), "None") && !(removal
        && eq_str(s.relation.as_slice(), "无"));
    if shown {
        let mut line: Vec<char> = Vec::new();
        if removal {
            push_str(&mut line, "    ⚠ 被依赖: ");
        } else {
            push_str(&mut line, "    依赖: ");
        }
        push_all(&mut line, s.relation.as_slice());
        push_line(out, line.as_slice());
    }
    let empty: Vec<char> = Vec::new();
    push_line(out, empty.as_slice());
    assert(texts(out@) =~= texts(old(out)@) + summary_lines(s@, removal));
}

fn push_entry(out: &mut Vec<String>, package: &str, answer: &Option<CommandOutput>, removal: bool)
    ensures
        texts(final(out)@) == texts(old(out)@) + entry_lines(package@, *answer, removal),
{
    match answer {
        None => {
            assert(texts(out@) + Seq::<Seq<char>>::empty() =~= texts(out@));
        },
        Some(o) => {
            if o.success {
                let s = summarize(o.stdout.as_str(), removal);
                push_summary(out, &s, removal);
            } else {
                let mut line: Vec<char> = Vec::new();
                push_str(&mut line, "  ");
                push_str(&mut line, package);
                push_str(&mut line, " (未找到包信息)");
                push_line(out, line.as_slice());
                let empty: Vec<char> = Vec::new();
                push_line(out, empty.as_slice());
                assert(texts(out@) =~= texts(old(out)@) + entry_lines(package@, *answer, removal));
            }
        },
    }
}

fn push_entries(
    out: &mut Vec<String>,
    entries: &Vec<(String, Option<CommandOutput>)>,
    removal: bool,
)
    ensures
        texts(final(out)@) == texts(old(out)@) + entries_lines(
            entries@,
            entries@.len() as int,
            removal,
        ),
{
    let mut i: usize = 0;
    assert(texts(out@) + Seq::<Seq<char>>::empty() =~= texts(out@));
    while i < entries.len()
        invariant
            i <= entries.len(),
            texts(out@) == texts(old(out)@) + entries_lines(entries@, i as int, removal),
        decreases entries.len() - i,
    {
        let ghost before = texts(out@);
        push_entry(out, entries[i].0.as_str(), &entries[i].1, removal);
        assert(before + entry_lines(entries@[i as int].0@, entries@[i as int].1, removal)
            =~= texts(old(out)@) + entries_lines(entries@, i + 1, removal));
        i += 1;
    }
}

fn push_removal_list(out: &mut Vec<String>, printed_list: &str, cascade: bool)
    ensures
        texts(final(out)@) == texts(old(out)@) + removal_list(printed_list@, cascade),
{
    let chars = to_chars(printed_list);
    let ls = split_lines(chars.as_slice());
    if ls.len() == 0 {
        assert(texts(out@) + Seq::<Seq<char>>::empty() =~= texts(out@));
        return ;
    }
    let mut head: Vec<char> = Vec::new();
    push_str(&mut head, "将移除以下 ");
    let count = decimal_chars(ls.len());
    push_all(&mut head, count.as_slice());
    if cascade {
        push_str(&mut head, " 个包（含孤立依赖）:");
    } else {
        push_str(&mut head, " 个包:");
    }
    push_line(out, head.as_slice());
    let ghost start = texts(out@);
    let mut i: usize = 0;
    assert(start + indented_lines(rows(ls@)).take(0) =~= start);
    while i < ls.len()
        invariant
            i <= ls.len(),
            texts(out@) == start + indented_lines(rows(ls@)).take(i as int),
        decreases ls.len() - i,
    {
        let mut line: Vec<char> = Vec::new();
        push_str(&mut line, "  ");
        push_all(&mut line, ls[i].as_slice());
        let ghost before = texts(out@);
        push_line(out, line.as_slice());
        assert(before.push(line@) =~= start + indented_lines(rows(ls@)).take(i + 1));
        i += 1;
    }
    assert(indented_lines(rows(ls@)).take(ls.len() as int) =~= indented_lines(rows(ls@)));
    assert(texts(out@) =~= texts(old(out)@) + removal_list(printed_list@, cascade));
}

// ---------------------------------------------------------------------------
// The queries
// ---------------------------------------------------------------------------

/// The number of installed packages that a listing shows.
pub open spec fn installed_count(answer: Option<CommandOutput>) -> nat {
    match answer {
        Some(o) => lines(o.stdout@).len(),
        None => 0,
    }
}

/// The available updates, one line each: what the first command printed
/// when it succeeded, else what the second printed when that succeeded.
pub open spec fn updates_of(
    first: Option<CommandOutput>,
    second: Option<CommandOutput>,
) -> Seq<Seq<char>> {
    match printed(first) {
        Some(s) => lines(s),
        None => match printed(second) {
            Some(s) => lines(s),
            None => Seq::empty(),
        },
    }
}

pub open spec fn answer_result(answer: Option<CommandOutput>) -> Result<Seq<char>, QueryError> {
    match answer {
        None => Err(QueryError::Unavailable),
        Some(o) => if o.success {
            Ok(o.stdout@)
        } else {
            Err(QueryError::Failed)
        },
    }
}

/// What a search found: nothing for a blank keyword or a command that did
/// not succeed.
pub open spec fn found(
    keyword: Seq<char>,
    answer: Option<CommandOutput>,
    is_local: bool,
) -> Seq<PackageInfoView> {
    if is_blank(keyword) {
        Seq::empty()
    } else {
        match printed(answer) {
            Some(s) => search_results(s, is_local),
            None => Seq::empty(),
        }
    }
}

fn search(keyword: &str, answer: &Option<CommandOutput>, is_local: bool) -> (r: Vec<PackageInfo>)
    ensures
        infos(r@) == found(keyword@, *answer, is_local),
{
    let none: Vec<PackageInfo> = Vec::new();
    assert(infos(none@) =~= Seq::<PackageInfoView>::empty());
    if blank_str(keyword) {
        return none;
    }
    match answer {
        Some(o) => if o.success {
            parse_search_output(o.stdout.as_str(), is_local)
        } else {
            none
        },
        None => none,
    }
}

fn describe(answer: &Option<CommandOutput>) -> (r: Result<PackageDetail, QueryError>)
    ensures
        match r {
            Ok(d) => answer_result(*answer) is Ok && d@ == detail_fields(
                answer_result(*answer)->Ok_0,
            ),
            Err(e) => answer_result(*answer) == Err::<Seq<char>, QueryError>(e),
        },
{
    match answer {
        None => Err(QueryError::Unavailable),
        Some(o) => if o.success {
            Ok(parse_package_detail(o.stdout.as_str()))
        } else {
            Err(QueryError::Failed)
        },
    }
}

impl PackageManager {
    /// The number of installed packages, from the answer to the listing
    /// command: the number of lines it printed.
    pub fn count_installed(answer: &Option<CommandOutput>) -> (n: usize)
        ensures
            n == installed_count(*answer),
    {
        match answer {
            Some(o) => {
                let chars = to_chars(o.stdout.as_str());
                let ls = split_lines(chars.as_slice());
                assert(rows(ls@).len() == ls@.len());
                ls.len()
            },
            None => 0,
        }
    }

    /// The available updates, from the answers of the two commands that
    /// list them.
    pub fn check_updates(first: &Option<CommandOutput>, second: &Option<CommandOutput>) -> (r:
        Vec<String>)
        ensures
            texts(r@) == updates_of(*first, *second),
    {
        let chosen = if succeeded(first) {
            first
        } else {
            second
        };
        match chosen {
            Some(o) => if o.success {
                let chars = to_chars(o.stdout.as_str());
                let ls = split_lines(chars.as_slice());
                row_texts(&ls)
            } else {
                let none: Vec<String> = Vec::new();
                assert(texts(none@) =~= Seq::<Seq<char>>::empty());
                none
            },
            None => {
                let none: Vec<String> = Vec::new();
                assert(texts(none@) =~= Seq::<Seq<char>>::empty());
                none
            },
        }
    }

    /// The listing of the explicitly installed packages, as it was printed.
    pub fn get_explicit_packages(answer: &Option<CommandOutput>) -> (r: Result<String, QueryError>)
        ensures
            match r {
                Ok(s) => answer_result(*answer) == Ok::<Seq<char>, QueryError>(s@),
                Err(e) => answer_result(*answer) == Err::<Seq<char>, QueryError>(e),
            },
    {
        match answer {
            None => Err(QueryError::Unavailable),
            Some(o) => if o.success {
                Ok(owned(o.stdout.as_str()))
            } else {
                Err(QueryError::Failed)
            },
        }
    }

    /// The explicitly installed packages with their sizes; none when the
    /// command did not succeed.
    pub fn get_installed_packages_with_size(answer: &Option<CommandOutput>) -> (r: Vec<
        InstalledPackage,
    >)
        ensures
            installed_views(r@) == (match printed(*answer) {
                Some(s) => installed_packages(s),
                None => Seq::<InstalledView>::empty(),
            }),
    {
        match answer {
            Some(o) => if o.success {
                parse_installed_packages(o.stdout.as_str())
            } else {
                let none: Vec<InstalledPackage> = Vec::new();
                assert(installed_views(none@) =~= Seq::<InstalledView>::empty());
                none
            },
            None => {
                let none: Vec<InstalledPackage> = Vec::new();
                assert(installed_views(none@) =~= Seq::<InstalledView>::empty());
                none
            },
        }
    }

    /// What a search among the installed packages found.
    pub fn search_local(keyword: &str, answer: &Option<CommandOutput>) -> (r: Vec<PackageInfo>)
        ensures
            infos(r@) == found(keyword@, *answer, true),
    {
        search(keyword, answer, true)
    }

    /// What a search in the repositories found.
    pub fn search_remote(keyword: &str, answer: &Option<CommandOutput>) -> (r: Vec<PackageInfo>)
        ensures
            infos(r@) == found(keyword@, *answer, false),
    {
        search(keyword, answer, false)
    }

    /// The description of an installed package.
    pub fn package_info_local(answer: &Option<CommandOutput>) -> (r: Result<
        PackageDetail,
        QueryError,
    >)
        ensures
            match r {
                Ok(d) => answer_result(*answer) is Ok && d@ == detail_fields(
                    answer_result(*answer)->Ok_0,
                ),
                Err(e) => answer_result(*answer) == Err::<Seq<char>, QueryError>(e),
            },
    {
        describe(answer)
    }

    /// The description of a package in the repositories.
    pub fn package_info_remote(answer: &Option<CommandOutput>) -> (r: Result<
        PackageDetail,
        QueryError,
    >)
        ensures
            match r {
                Ok(d) => answer_result(*answer) is Ok && d@ == detail_fields(
                    answer_result(*answer)->Ok_0,
                ),
                Err(e) => answer_result(*answer) == Err::<Seq<char>, QueryError>(e),
            },
    {
        describe(answer)
    }

    /// The files of an installed package, from its file listing.
    pub fn package_files(answer: &Option<CommandOutput>) -> (r: Vec<String>)
        ensures
            texts(r@) == paths_in(*answer, false),
    {
        collect_paths(answer, false)
    }

    /// The directories of an installed package, from its file listing.
    pub fn package_dirs(answer: &Option<CommandOutput>) -> (r: Vec<String>)
        ensures
            texts(r@) == paths_in(*answer, true),
    {
        collect_paths(answer, true)
    }

    /// What an install would bring: for each package, in order, the lines
    /// that its description yields.
    pub fn preview_install(entries: &Vec<(String, Option<CommandOutput>)>) -> (r: Vec<String>)
        ensures
            texts(r@) == entries_lines(entries@, entries@.len() as int, false),
    {
        let mut out: Vec<String> = Vec::new();
        assert(texts(out@) =~= Seq::<Seq<char>>::empty());
        push_entries(&mut out, entries, false);
        assert(Seq::<Seq<char>>::empty() + entries_lines(entries@, entries@.len() as int, false)
            =~= entries_lines(entries@, entries@.len() as int, false));
        out
    }

    /// What a removal would take away: for each package, in order, the
    /// lines that its description yields, then the full list from the dry
    /// run.
    pub fn preview_remove(
        entries: &Vec<(String, Option<CommandOutput>)>,
        cascade: &Option<CommandOutput>,
        plain: &Option<CommandOutput>,
    ) -> (r: Vec<String>)
        ensures
            texts(r@) == entries_lines(entries@, entries@.len() as int, true) + removal_tail(
                *cascade,
                *plain,
            ),
    {
        let mut out: Vec<String> = Vec::new();
        assert(texts(out@) =~= Seq::<Seq<char>>::empty());
        push_entries(&mut out, entries, true);
        assert(Seq::<Seq<char>>::empty() + entries_lines(entries@, entries@.len() as int, true)
            =~= entries_lines(entries@, entries@.len() as int, true));
        let ghost mid = texts(out@);
        match cascade {
            None => {
                assert(mid + Seq::<Seq<char>>::empty() =~= mid);
            },
            Some(o) => {
                if o.success {
                    push_removal_list(&mut out, o.stdout.as_str(), true);
                } else {
                    match plain {
                        Some(p) => {
                            if p.success {
                                push_removal_list(&mut out, p.stdout.as_str(), false);
                            } else {
                                assert(mid + Seq::<Seq<char>>::empty() =~= mid);
                            }
                        },
                        None => {
                            assert(mid + Seq::<Seq<char>>::empty() =~= mid);
                        },
                    }
                }
            },
        }
        out
    }
}

// ---------------------------------------------------------------------------
// The commands
// ---------------------------------------------------------------------------

/// A question to the package manager.
#[derive(Debug, Clone)]
pub enum Query {
    /// Every installed package, one per line.
    Installed,
    /// The available updates, by the helper that leaves the database alone.
    Updates,
    /// The available updates, by the manager itself.
    UpdatesByManager,
    /// The explicitly installed packages.
    Explicit,
    /// The explicitly installed packages with their descriptions.
    ExplicitDescribed,
    /// The installed packages that match a keyword.
    SearchLocal(String),
    /// The packages of the repositories that match a keyword.
    SearchRemote(String),
    /// The description of an installed package.
    InfoLocal(String),
    /// The description of a package of the repositories.
    InfoRemote(String),
    /// The files of an installed package.
    Files(String),
    /// What removing the packages takes away, orphaned dependencies
    /// included or not.
    Removal { cascade: bool, packages: Vec<String> },
}

/// The argument vector that asks `q` of the manager called `command`.
pub open spec fn query_words(q: Query, command: Seq<char>) -> Seq<Seq<char>> {
    match q {
        Query::Installed => seq!["pacman"@, "-Q"@],
        Query::Updates => seq!["checkupdates"@],
        Query::UpdatesByManager => seq![command, "-Qu"@],
        Query::Explicit => seq!["pacman"@, "-Qe"@],
        Query::ExplicitDescribed => seq!["pacman"@, "-Qei"@],
        Query::SearchLocal(k) => seq!["pacman"@, "-Qs"@, k@],
        Query::SearchRemote(k) => seq![command, "-Ss"@, k@],
        Query::InfoLocal(n) => seq!["pacman"@, "-Qi"@, n@],
        Query::InfoRemote(n) => seq!["pacman"@, "-Si"@, n@],
        Query::Files(n) => seq!["pacman"@, "-Ql"@, n@],
        Query::Removal { cascade, packages } => seq![
            "pacman"@,
            if cascade {
                "-Rns"@
            } else {
                "-Rn"@
            },
            "--print"@,
        ] + texts(packages@),
    }
}

fn words2(a: &str, b: &str) -> (out: Vec<String>)
    ensures
        texts(out@) == seq![a@, b@],
{
    let mut out: Vec<String> = Vec::new();
    assert(texts(out@) =~= Seq::<Seq<char>>::empty());
    push_word(&mut out, a);
    push_word(&mut out, b);
    assert(texts(out@) =~= seq![a@, b@]);
    out
}

fn words3(a: &str, b: &str, c: &str) -> (out: Vec<String>)
    ensures
        texts(out@) == seq![a@, b@, c@],
{
    let mut out = words2(a, b);
    push_word(&mut out, c);
    assert(texts(out@) =~= seq![a@, b@, c@]);
    out
}

impl PackageManager {
    /// The argument vector that asks `q`, the program first.
    pub fn query_argv(&self, q: &Query) -> (out: Vec<String>)
        ensures
            texts(out@) == query_words(*q, self.command@),
    {
        match q {
            Query::Installed => words2("pacman", "-Q"),
            Query::Updates => {
                let mut out: Vec<String> = Vec::new();
                assert(texts(out@) =~= Seq::<Seq<char>>::empty());
                push_word(&mut out, "checkupdates");
                assert(texts(out@) =~= seq!["checkupdates"@]);
                out
            },
            Query::UpdatesByManager => words2(self.command.as_str(), "-Qu"),
            Query::Explicit => words2("pacman", "-Qe"),
            Query::ExplicitDescribed => words2("pacman", "-Qei"),
            Query::SearchLocal(k) => words3("pacman", "-Qs", k.as_str()),
            Query::SearchRemote(k) => words3(self.command.as_str(), "-Ss", k.as_str()),
            Query::InfoLocal(n) => words3("pacman", "-Qi", n.as_str()),
            Query::InfoRemote(n) => words3("pacman", "-Si", n.as_str()),
            Query::Files(n) => words3("pacman", "-Ql", n.as_str()),
            Query::Removal { cascade, packages } => {
                let mut out = if *cascade {
                    words3("pacman", "-Rns", "--print")
                } else {
                    words3("pacman", "-Rn", "--print")
                };
                push_words(&mut out, packages);
                out
            },
        }
    }
}

} // verus!
