//! Where the tool keeps its files: everything lives under the directory of the
//! binary.

use vstd::prelude::*;
use crate::text;

verus! {

/// A path: a root, and the names that lead from it to a file or directory.
#[derive(Debug, PartialEq, Eq)]
pub struct FsPath {
    pub root: String,
    pub names: Vec<String>,
}

/// A path as plain texts.
#[verifier::ext_equal]
pub struct PathModel {
    pub root: Seq<char>,
    pub names: Seq<Seq<char>>,
}

impl View for FsPath {
    type V = PathModel;

    open spec fn view(&self) -> PathModel {
        PathModel { root: self.root@, names: text::views(self.names@) }
    }
}

impl PathModel {
    /// The child of this name.
    pub open spec fn child(self, name: Seq<char>) -> PathModel {
        PathModel { root: self.root, names: self.names.push(name) }
    }
}

/// The path of a root.
pub open spec fn root_path(root: Seq<char>) -> PathModel {
    PathModel { root, names: Seq::empty() }
}

/// Copies a list of strings.
pub(crate) fn copy_strings(v: &Vec<String>) -> (r: Vec<String>)
    ensures
        text::views(r@) == text::views(v@),
{
    let mut out: Vec<String> = Vec::new();
    for i in 0..v.len()
        invariant
            text::views(out@) == text::views(v@).take(i as int),
    {
        let ghost before = out@;
        out.push(v[i].clone());
        assert(text::views(out@) =~= text::views(before).push(v@[i as int]@));
        assert(text::views(v@).take(i + 1) =~= text::views(v@).take(i as int).push(v@[i as int]@));
    }
    assert(text::views(v@).take(v@.len() as int) =~= text::views(v@));
    out
}

impl FsPath {
    /// The path of a root.
    pub fn rooted(root: &str) -> (r: FsPath)
        ensures
            r@ == root_path(root@),
    {
        let r = FsPath { root: root.to_string(), names: Vec::new() };
        assert(text::views(r.names@) =~= Seq::empty());
        r
    }

    /// The child of this name.
    pub fn join(&self, name: &str) -> (r: FsPath)
        ensures
            r@ == self@.child(name@),
    {
        let mut names = copy_strings(&self.names);
        let ghost before = names@;
        names.push(name.to_string());
        assert(text::views(names@) =~= text::views(before).push(name@));
        FsPath { root: self.root.clone(), names }
    }
}

/// The layout under the directory of the binary.
#[derive(Debug)]
pub struct BinaryFsLayout {
    pub binary_dir: String,
    pub config_override: Option<String>,
}

/// The child `name` of the directory of the binary.
pub open spec fn binary_child(layout: BinaryFsLayout, name: Seq<char>) -> PathModel {
    root_path(layout.binary_dir@).child(name)
}

impl BinaryFsLayout {
    /// A layout under an arbitrary directory.
    pub fn new_rooted_at(dir: &str) -> (r: Self)
        ensures
            r.binary_dir@ == dir@,
            r.config_override is None,
    {
        BinaryFsLayout { binary_dir: dir.to_string(), config_override: None }
    }

    /// The same layout with an explicit configuration file, or without one.
    pub fn with_config_override(self, path: Option<String>) -> (r: Self)
        ensures
            r.binary_dir == self.binary_dir,
            r.config_override == path,
    {
        BinaryFsLayout { binary_dir: self.binary_dir, config_override: path }
    }

    /// The directory of the binary.
    pub fn binary_dir(&self) -> (r: FsPath)
        ensures
            r@ == root_path(self.binary_dir@),
    {
        FsPath::rooted(self.binary_dir.as_str())
    }

    /// The configuration file: the explicit one where there is one, else
    /// `config.json` beside the binary.
    pub fn config_path(&self) -> (r: FsPath)
        ensures
            r@ == (match self.config_override {
                Some(p) => root_path(p@),
                None => binary_child(*self, "config.json"@),
            }),
    {
        match &self.config_override {
            Some(p) => FsPath::rooted(p.as_str()),
            None => default_config_path(&self.binary_dir()),
        }
    }

    /// The directory of the baseline cache.
    pub fn cache_dir(&self) -> (r: FsPath)
        ensures
            r@ == binary_child(*self, "cache"@),
    {
        self.binary_dir().join("cache")
    }

    /// The directory of the run folders.
    pub fn runs_dir(&self) -> (r: FsPath)
        ensures
            r@ == binary_child(*self, "runs"@),
    {
        self.binary_dir().join("runs")
    }

    /// The directory of the finished resumes.
    pub fn output_dir(&self) -> (r: FsPath)
        ensures
            r@ == binary_child(*self, "output"@),
    {
        self.binary_dir().join("output")
    }

    /// The directories that have to exist before anything is written.
    pub fn required_dirs(&self) -> (r: Vec<FsPath>)
        ensures
            r@.len() == 3,
            r@[0]@ == binary_child(*self, "cache"@),
            r@[1]@ == binary_child(*self, "runs"@),
            r@[2]@ == binary_child(*self, "output"@),
    {
        let mut out: Vec<FsPath> = Vec::new();
        out.push(self.cache_dir());
        out.push(self.runs_dir());
        out.push(self.output_dir());
        out
    }
}

/// `config.json` beside the binary.
pub fn default_config_path(binary_dir: &FsPath) -> (r: FsPath)
    ensures
        r@ == binary_dir@.child("config.json"@),
{
    binary_dir.join("config.json")
}

} // verus!
