//! Parsers for what the package manager prints: search results, package
//! descriptions and the list of installed packages.

use crate::sanitize::{sanitize_chars, sanitized};
use crate::text::{
    blank_chars, contains_str, eq_str, find_char, find_from, from_chars, has_sub, is_blank, lines,
    push_all, push_str, rows, slice_chars, split_lines, split_tokens, to_chars, tokens, trim,
    trim_chars,
};
use crate::types::{
    infos, installed_views, pairs, InstalledPackage, InstalledView, PackageDetail, PackageInfo,
    PackageInfoView,
};
use vstd::prelude::*;

verus! {

/// Whether a line begins with a space or a tab: a continuation line.
pub open spec fn indented(line: Seq<char>) -> bool {
    line.len() > 0 && (line[0] == ' ' || line[0] == '\t')
}

fn is_indented(line: &[char]) -> (r: bool)
    ensures
        r == indented(line@),
{
    line.len() > 0 && (line[0] == ' ' || line[0] == '\t')
}

/// The part of `line` before index `at`, trimmed.
pub open spec fn key_at(line: Seq<char>, at: int) -> Seq<char> {
    trim(line.subrange(0, at))
}

/// The part of `line` after index `at`, trimmed.
pub open spec fn value_at(line: Seq<char>, at: int) -> Seq<char> {
    trim(line.subrange(at + 1, line.len() as int))
}

pub(crate) fn key_of(line: &[char], at: usize) -> (k: Vec<char>)
    requires
        at < line.len(),
    ensures
        k@ == key_at(line@, at as int),
{
    let part = slice_chars(line, 0, at);
    trim_chars(part.as_slice())
}

pub(crate) fn value_of(line: &[char], at: usize) -> (v: Vec<char>)
    requires
        at < line.len(),
    ensures
        v@ == value_at(line@, at as int),
{
    let part = slice_chars(line, at + 1, line.len());
    trim_chars(part.as_slice())
}

// ---------------------------------------------------------------------------
// Search results
// ---------------------------------------------------------------------------

/// The entry that a header line `repo/name version ...` describes, its
/// description still empty; none when the line has no slash or no name.
pub open spec fn search_header(line: Seq<char>, is_local: bool) -> Option<PackageInfoView> {
    let t = trim(sanitized(line));
    let slash = find_from(t, 0, '/');
    if slash >= t.len() {
        None
    } else {
        let rest = t.subrange(slash + 1, t.len() as int);
        let parts = tokens(rest);
        if parts.len() == 0 {
            None
        } else {
            Some(
                PackageInfoView {
                    repo: t.subrange(0, slash),
                    name: parts[0],
                    version: if parts.len() > 1 {
                        parts[1]
                    } else {
                        Seq::empty()
                    },
                    description: Seq::empty(),
                    installed: is_local || has_sub(rest, "[installed"@) || has_sub(
                        rest,
                        "[已安装"@,
                    ),
                },
            )
        }
    }
}

/// What line `i` contributes: how many lines it uses up and the entry it
/// completes. An indented line alone is skipped; a header takes the indented
/// line after it as its description.
pub open spec fn search_step(ls: Seq<Seq<char>>, i: int, is_local: bool) -> (int, Option<
    PackageInfoView,
>) {
    if indented(ls[i]) {
        (1, None)
    } else {
        match search_header(ls[i], is_local) {
            None => (1, None),
            Some(h) => if i + 1 < ls.len() && indented(ls[i + 1]) {
                (2, Some(PackageInfoView { description: sanitized(trim(ls[i + 1])), ..h }))
            } else {
                (1, Some(h))
            },
        }
    }
}

pub open spec fn search_from(
    ls: Seq<Seq<char>>,
    i: int,
    is_local: bool,
    acc: Seq<PackageInfoView>,
) -> Seq<PackageInfoView>
    decreases ls.len() - i,
{
    if i < 0 || i >= ls.len() {
        acc
    } else {
        let (used, e) = search_step(ls, i, is_local);
        let next = match e {
            Some(p) => acc.push(p),
            None => acc,
        };
        if used <= 0 {
            next
        } else {
            search_from(ls, i + used, is_local, next)
        }
    }
}

/// The entries of a search listing.
pub open spec fn search_results(output: Seq<char>, is_local: bool) -> Seq<PackageInfoView> {
    search_from(lines(output), 0, is_local, Seq::empty())
}

fn parse_header(line: &[char], is_local: bool) -> (r: Option<PackageInfo>)
    ensures
        match r {
            Some(p) => search_header(line@, is_local) == Some(p@),
            None => search_header(line@, is_local) is None,
        },
{
    let cleaned = sanitize_chars(line);
    let t = trim_chars(cleaned.as_slice());
    let slash = find_char(t.as_slice(), 0, '/');
    if slash >= t.len() {
        return None;
    }
    let rest = slice_chars(t.as_slice(), slash + 1, t.len());
    let parts = split_tokens(rest.as_slice());
    if parts.len() == 0 {
        return None;
    }
    assert(rows(parts@)[0] == parts@[0]@);
    let version = if parts.len() > 1 {
        assert(rows(parts@)[1] == parts@[1]@);
        from_chars(parts[1].as_slice())
    } else {
        String::new()
    };
    let installed = is_local || contains_str(rest.as_slice(), "[installed") || contains_str(
        rest.as_slice(),
        "[已安装",
    );
    let repo = slice_chars(t.as_slice(), 0, slash);
    Some(
        PackageInfo {
            repo: from_chars(repo.as_slice()),
            name: from_chars(parts[0].as_slice()),
            version,
            description: String::new(),
            installed,
        },
    )
}

/// Parses the listing of a package search: one header line `repo/name
/// version` per package, its description on the indented line after it.
/// With `is_local` every entry counts as installed.
pub fn parse_search_output(output: &str, is_local: bool) -> (results: Vec<PackageInfo>)
    ensures
        infos(results@) == search_results(output@, is_local),
{
    let text = to_chars(output);
    let ls = split_lines(text.as_slice());
    let mut results: Vec<PackageInfo> = Vec::new();
    let mut i: usize = 0;
    let ghost all = rows(ls@);
    assert(infos(results@) =~= Seq::<PackageInfoView>::empty());
    while i < ls.len()
        invariant
            i <= ls.len(),
            all == rows(ls@),
            all == lines(output@),
            search_results(output@, is_local) == search_from(
                all,
                i as int,
                is_local,
                infos(results@),
            ),
        decreases ls.len() - i,
    {
        assert(all[i as int] == ls@[i as int]@);
        assert(i + 1 < ls.len() ==> all[i + 1] == ls@[i + 1]@);
        if is_indented(ls[i].as_slice()) {
            i += 1;
        } else {
            match parse_header(ls[i].as_slice(), is_local) {
                None => {
                    i += 1;
                },
                Some(h) => {
                    if i + 1 < ls.len() && is_indented(ls[i + 1].as_slice()) {
                        let d = trim_chars(ls[i + 1].as_slice());
                        let d2 = sanitize_chars(d.as_slice());
                        let p = PackageInfo {
                            repo: h.repo,
                            name: h.name,
                            version: h.version,
                            description: from_chars(d2.as_slice()),
                            installed: h.installed,
                        };
                        assert(infos(results@.push(p)) =~= infos(results@).push(p@));
                        results.push(p);
                        i += 2;
                    } else {
                        assert(infos(results@.push(h)) =~= infos(results@).push(h@));
                        results.push(h);
                        i += 1;
                    }
                },
            }
        }
    }
    results
}

// ---------------------------------------------------------------------------
// Package descriptions
// ---------------------------------------------------------------------------

/// The fields after one more line of a package description.
///
/// * `Key : value`, the key not indented and not empty, starts a field.
/// * Any other indented line continues the field before it, joined by one
///   space; without a field before it, it is dropped.
pub open spec fn detail_step(fields: Seq<(Seq<char>, Seq<char>)>, line: Seq<char>) -> Seq<
    (Seq<char>, Seq<char>),
> {
    let colon = find_from(line, 0, ':');
    if colon < line.len() && !(line[0] == ' ') && key_at(line, colon).len() > 0 {
        fields.push((key_at(line, colon), value_at(line, colon)))
    } else if indented(line) && fields.len() > 0 {
        fields.update(
            fields.len() - 1,
            (fields.last().0, fields.last().1 + " "@ + trim(line)),
        )
    } else {
        fields
    }
}

pub open spec fn detail_scan(ls: Seq<Seq<char>>) -> Seq<(Seq<char>, Seq<char>)>
    decreases ls.len(),
{
    if ls.len() == 0 {
        Seq::empty()
    } else {
        detail_step(detail_scan(ls.drop_last()), ls.last())
    }
}

/// The fields of a package description.
pub open spec fn detail_fields(output: Seq<char>) -> Seq<(Seq<char>, Seq<char>)> {
    detail_scan(lines(output))
}

/// Parses a package description: `Key : value` lines, long values continued
/// on indented lines.
pub fn parse_package_detail(output: &str) -> (detail: PackageDetail)
    ensures
        detail@ == detail_fields(output@),
{
    let text = to_chars(output);
    let ls = split_lines(text.as_slice());
    let mut fields: Vec<(String, String)> = Vec::new();
    let mut i: usize = 0;
    proof {
        assert(pairs(fields@) =~= Seq::<(Seq<char>, Seq<char>)>::empty());
        assert(rows(ls@).take(0) =~= Seq::<Seq<char>>::empty());
    }
    while i < ls.len()
        invariant
            i <= ls.len(),
            rows(ls@) == lines(output@),
            pairs(fields@) == detail_scan(rows(ls@).take(i as int)),
        decreases ls.len() - i,
    {
        let line = ls[i].as_slice();
        proof {
            let next = rows(ls@).take(i + 1);
            assert(next.drop_last() =~= rows(ls@).take(i as int));
            assert(next.last() == line@);
        }
        let colon = find_char(line, 0, ':');
        let mut started = false;
        if colon < line.len() && line[0] != ' ' {
            let key = key_of(line, colon);
            if key.len() > 0 {
                let value = value_of(line, colon);
                let pair = (from_chars(key.as_slice()), from_chars(value.as_slice()));
                assert(pairs(fields@.push(pair)) =~= pairs(fields@).push((pair.0@, pair.1@)));
                fields.push(pair);
                started = true;
            }
        }
        if !started && is_indented(line) && fields.len() > 0 {
            let ghost before = pairs(fields@);
            let last = fields.pop().unwrap();
            let mut v = to_chars(last.1.as_str());
            push_str(&mut v, " ");
            let t = trim_chars(line);
            push_all(&mut v, t.as_slice());
            let pair = (last.0, from_chars(v.as_slice()));
            fields.push(pair);
            assert(pairs(fields@) =~= before.update(
                before.len() - 1,
                (before.last().0, before.last().1 + " "@ + trim(line@)),
            ));
        }
        i += 1;
    }
    assert(rows(ls@).take(ls.len() as int) =~= rows(ls@));
    PackageDetail { fields }
}

// ---------------------------------------------------------------------------
// Installed packages
// ---------------------------------------------------------------------------

/// The record being filled and the packages completed before it.
pub struct InstalledScan {
    pub done: Seq<InstalledView>,
    pub current: InstalledView,
}

pub open spec fn no_package() -> InstalledView {
    InstalledView {
        name: Seq::empty(),
        version: Seq::empty(),
        size: Seq::empty(),
        description: Seq::empty(),
    }
}

pub open spec fn is_name_key(k: Seq<char>) -> bool {
    k == "Name"@ || k == "名称"@ || k == "名字"@
}

pub open spec fn is_version_key(k: Seq<char>) -> bool {
    k == "Version"@ || k == "版本"@
}

pub open spec fn is_size_key(k: Seq<char>) -> bool {
    k == "Installed Size"@ || k == "安装大小"@ || k == "安装后大小"@
}

pub open spec fn is_description_key(k: Seq<char>) -> bool {
    k == "Description"@ || k == "描述"@
}

/// The record after a `key : value` line.
pub open spec fn set_field(p: InstalledView, k: Seq<char>, v: Seq<char>) -> InstalledView {
    if is_name_key(k) {
        InstalledView { name: v, ..p }
    } else if is_version_key(k) {
        InstalledView { version: v, ..p }
    } else if is_size_key(k) {
        InstalledView { size: v, ..p }
    } else if is_description_key(k) {
        InstalledView { description: v, ..p }
    } else {
        p
    }
}

/// The scan after one more line: a blank line ends the record in progress
/// when it has a name; a `key : value` line fills one of its fields.
pub open spec fn installed_step(st: InstalledScan, line: Seq<char>) -> InstalledScan {
    if is_blank(line) {
        if st.current.name.len() > 0 {
            InstalledScan { done: st.done.push(st.current), current: no_package() }
        } else {
            st
        }
    } else {
        let colon = find_from(line, 0, ':');
        if colon < line.len() {
            InstalledScan {
                current: set_field(st.current, key_at(line, colon), value_at(line, colon)),
                ..st
            }
        } else {
            st
        }
    }
}

pub open spec fn installed_scan(ls: Seq<Seq<char>>) -> InstalledScan
    decreases ls.len(),
{
    if ls.len() == 0 {
        InstalledScan { done: Seq::empty(), current: no_package() }
    } else {
        installed_step(installed_scan(ls.drop_last()), ls.last())
    }
}

/// The packages of a listing of installed packages: the records separated
/// by blank lines, each with a name.
pub open spec fn installed_packages(output: Seq<char>) -> Seq<InstalledView> {
    let st = installed_scan(lines(output));
    if st.current.name.len() > 0 {
        st.done.push(st.current)
    } else {
        st.done
    }
}

fn name_key(k: &[char]) -> (r: bool)
    ensures
        r == is_name_key(k@),
{
    eq_str(k, "Name") || eq_str(k, "名称") || eq_str(k, "名字")
}

fn version_key(k: &[char]) -> (r: bool)
    ensures
        r == is_version_key(k@),
{
    eq_str(k, "Version") || eq_str(k, "版本")
}

fn size_key(k: &[char]) -> (r: bool)
    ensures
        r == is_size_key(k@),
{
    eq_str(k, "Installed Size") || eq_str(k, "安装大小") || eq_str(k, "安装后大小")
}

fn description_key(k: &[char]) -> (r: bool)
    ensures
        r == is_description_key(k@),
{
    eq_str(k, "Description") || eq_str(k, "描述")
}

/// Parses the listing of installed packages: blocks of `key : value` lines
/// separated by blank lines, read for name, version, installed size and
/// description.
pub fn parse_installed_packages(output: &str) -> (packages: Vec<InstalledPackage>)
    ensures
        installed_views(packages@) == installed_packages(output@),
{
    let text = to_chars(output);
    let ls = split_lines(text.as_slice());
    let mut packages: Vec<InstalledPackage> = Vec::new();
    let mut name: Vec<char> = Vec::new();
    let mut version: Vec<char> = Vec::new();
    let mut size: Vec<char> = Vec::new();
    let mut description: Vec<char> = Vec::new();
    let mut i: usize = 0;
    proof {
        assert(installed_views(packages@) =~= Seq::<InstalledView>::empty());
        assert(rows(ls@).take(0) =~= Seq::<Seq<char>>::empty());
    }
    while i < ls.len()
        invariant
            i <= ls.len(),
            rows(ls@) == lines(output@),
            installed_scan(rows(ls@).take(i as int)) == (InstalledScan {
                done: installed_views(packages@),
                current: InstalledView {
                    name: name@,
                    version: version@,
                    size: size@,
                    description: description@,
                },
            }),
        decreases ls.len() - i,
    {
        let line = ls[i].as_slice();
        proof {
            let next = rows(ls@).take(i + 1);
            assert(next.drop_last() =~= rows(ls@).take(i as int));
            assert(next.last() == line@);
        }
        if blank_chars(line) {
            if name.len() > 0 {
                let p = InstalledPackage {
                    name: from_chars(name.as_slice()),
                    version: from_chars(version.as_slice()),
                    size: from_chars(size.as_slice()),
                    description: from_chars(description.as_slice()),
                };
                assert(installed_views(packages@.push(p)) =~= installed_views(packages@).push(p@));
                packages.push(p);
                name = Vec::new();
                version = Vec::new();
                size = Vec::new();
                description = Vec::new();
            }
        } else {
            let colon = find_char(line, 0, ':');
            if colon < line.len() {
                let key = key_of(line, colon);
                let val = value_of(line, colon);
                if name_key(key.as_slice()) {
                    name = val;
                } else if version_key(key.as_slice()) {
                    version = val;
                } else if size_key(key.as_slice()) {
                    size = val;
                } else if description_key(key.as_slice()) {
                    description = val;
                }
            }
        }
        i += 1;
    }
    assert(rows(ls@).take(ls.len() as int) =~= rows(ls@));
    if name.len() > 0 {
        let p = InstalledPackage {
            name: from_chars(name.as_slice()),
            version: from_chars(version.as_slice()),
            size: from_chars(size.as_slice()),
            description: from_chars(description.as_slice()),
        };
        assert(installed_views(packages@.push(p)) =~= installed_views(packages@).push(p@));
        packages.push(p);
    }
    packages
}

} // verus!
