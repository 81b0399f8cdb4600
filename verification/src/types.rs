//! The records that package-manager commands produce.

use crate::text::{from_chars, push_str};
use vstd::prelude::*;

verus! {

/// The outcome of one command run: what both streams accumulated and
/// whether the command succeeded. A cancelled run has `success == false` and
/// the cancellation notice in `stderr`.
#[derive(Debug, Clone)]
pub struct UpdateOutput {
    pub stdout: String,
    pub stderr: String,
    pub success: bool,
}

impl UpdateOutput {
    /// Both streams, standard output first, a line break between them.
    pub fn combined_output(&self) -> (out: String)
        ensures
            out@ == self.stdout@ + "\n"@ + self.stderr@,
    {
        let mut c: Vec<char> = Vec::new();
        push_str(&mut c, self.stdout.as_str());
        push_str(&mut c, "\n");
        push_str(&mut c, self.stderr.as_str());
        assert(c@ =~= self.stdout@ + "\n"@ + self.stderr@);
        from_chars(c.as_slice())
    }
}

/// One entry of a search result.
#[derive(Debug, Clone)]
pub struct PackageInfo {
    pub repo: String,
    pub name: String,
    pub version: String,
    pub description: String,
    pub installed: bool,
}

/// The mathematical content of a [`PackageInfo`].
pub struct PackageInfoView {
    pub repo: Seq<char>,
    pub name: Seq<char>,
    pub version: Seq<char>,
    pub description: Seq<char>,
    pub installed: bool,
}

impl View for PackageInfo {
    type V = PackageInfoView;

    open spec fn view(&self) -> PackageInfoView {
        PackageInfoView {
            repo: self.repo@,
            name: self.name@,
            version: self.version@,
            description: self.description@,
            installed: self.installed,
        }
    }
}

/// The fields of a package description, in the order they were printed.
#[derive(Debug, Clone)]
pub struct PackageDetail {
    pub fields: Vec<(String, String)>,
}

/// The texts of a list of key-value pairs.
pub open spec fn pairs(v: Seq<(String, String)>) -> Seq<(Seq<char>, Seq<char>)> {
    Seq::new(v.len(), |i: int| (v[i].0@, v[i].1@))
}

impl View for PackageDetail {
    type V = Seq<(Seq<char>, Seq<char>)>;

    open spec fn view(&self) -> Seq<(Seq<char>, Seq<char>)> {
        pairs(self.fields@)
    }
}

/// An installed package with its size.
#[derive(Debug, Clone)]
pub struct InstalledPackage {
    pub name: String,
    pub version: String,
    pub size: String,
    pub description: String,
}

/// The mathematical content of an [`InstalledPackage`].
pub struct InstalledView {
    pub name: Seq<char>,
    pub version: Seq<char>,
    pub size: Seq<char>,
    pub description: Seq<char>,
}

impl View for InstalledPackage {
    type V = InstalledView;

    open spec fn view(&self) -> InstalledView {
        InstalledView {
            name: self.name@,
            version: self.version@,
            size: self.size@,
            description: self.description@,
        }
    }
}

/// The contents of a vector of search entries.
pub open spec fn infos(v: Seq<PackageInfo>) -> Seq<PackageInfoView> {
    Seq::new(v.len(), |i: int| v[i]@)
}

/// The contents of a vector of installed packages.
pub open spec fn installed_views(v: Seq<InstalledPackage>) -> Seq<InstalledView> {
    Seq::new(v.len(), |i: int| v[i]@)
}

} // verus!
