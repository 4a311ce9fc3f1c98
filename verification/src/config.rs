//! What the caller asks for: one provisioning request.

use vstd::prelude::*;
use vstd::string::StringExecFns;
use crate::command::string_views;
use crate::error::Error;
use crate::pattern::{is_version, version_shaped};
use crate::text::str_eq;

verus! {

/// `std::path::PathBuf`, in which a request carries its two directories.
#[verifier::external_type_specification]
#[verifier::external_body]
pub struct ExPathBuf(std::path::PathBuf);

/// `PathBuf::new` makes an empty path. Nothing is claimed of it here: the
/// library carries paths and never looks into them.
pub assume_specification[ std::path::PathBuf::new ]() -> std::path::PathBuf
;

/// Cloning a `PathBuf` gives the same path again.
pub assume_specification[ <std::path::PathBuf as Clone>::clone ](
    path: &std::path::PathBuf,
) -> (copy: std::path::PathBuf)
    ensures
        copy == *path,
;

/// One provisioning request. It does not change during a run.
#[derive(Debug, Clone)]
pub struct Config {
    /// The working directory. The tree is built in `pyembed_runtime` below
    /// it, and the bootstrap script is kept in it. A relative path counts
    /// from the process's current directory.
    pub dir: std::path::PathBuf,
    /// Where downloaded archives are kept.
    pub cache_dir: std::path::PathBuf,
    /// The version to fetch, such as `3.8.6`; `latest` or nothing for the
    /// newest release.
    pub pyver: String,
    /// Fetch the 32-bit build instead of the 64-bit one.
    pub is32: bool,
    /// Work on the tree that is there already: no archive is fetched or
    /// unpacked.
    pub skip_download: bool,
    /// The package index for the package manager and its build-support
    /// packages; empty for the default index.
    pub python_mirror: String,
    /// The package index for the requested packages; empty for the default
    /// index.
    pub pip_mirror: String,
    /// Keep the directory of generated scripts.
    pub keep_scripts: bool,
    /// Keep the packages' metadata directories. Without them the package
    /// manager cannot manage what is installed.
    pub keep_dist_info: bool,
    /// Keep the package manager and its build-support packages.
    pub keep_pip: bool,
    /// The optimization level of the compile pass: 0, 1 (no assertions) or 2
    /// (no assertions, no docstrings).
    pub optimize: u8,
    /// The packages to install.
    pub packages: Vec<String>,
}

/// A request, with its texts as sequences of characters. The two
/// directories stand as they are: the library carries them and never looks
/// into them.
pub struct Request {
    pub dir: std::path::PathBuf,
    pub cache_dir: std::path::PathBuf,
    pub pyver: Seq<char>,
    pub is32: bool,
    pub skip_download: bool,
    pub python_mirror: Seq<char>,
    pub pip_mirror: Seq<char>,
    pub keep_scripts: bool,
    pub keep_dist_info: bool,
    pub keep_pip: bool,
    pub optimize: u8,
    pub packages: Seq<Seq<char>>,
}

impl View for Config {
    type V = Request;

    open spec fn view(&self) -> Request {
        Request {
            dir: self.dir,
            cache_dir: self.cache_dir,
            pyver: self.pyver@,
            is32: self.is32,
            skip_download: self.skip_download,
            python_mirror: self.python_mirror@,
            pip_mirror: self.pip_mirror@,
            keep_scripts: self.keep_scripts,
            keep_dist_info: self.keep_dist_info,
            keep_pip: self.keep_pip,
            optimize: self.optimize,
            packages: string_views(self.packages@),
        }
    }
}

/// The selector asks for the newest release: it is `latest` or empty.
pub open spec fn wants_latest(pyver: Seq<char>) -> bool {
    pyver == "latest"@ || pyver.len() == 0
}

/// The selector is one that a run accepts.
pub open spec fn selector_valid(pyver: Seq<char>) -> bool {
    wants_latest(pyver) || is_version(pyver)
}

/// `name` is the package manager or one of its two build-support packages.
pub open spec fn is_bootstrap_package(name: Seq<char>) -> bool {
    name == "pip"@ || name == "setuptools"@ || name == "wheel"@
}

/// The package manager stays after the run: the caller asked for that, or
/// asked for the package manager or a build-support package by name.
pub open spec fn keeps_pip(keep_pip: bool, packages: Seq<Seq<char>>) -> bool {
    keep_pip || exists|i: int| 0 <= i < packages.len() && is_bootstrap_package(#[trigger] packages[i])
}

impl Default for Config {
    /// The newest 64-bit release, into the current directory, nothing kept
    /// and nothing installed.
    fn default() -> (c: Config)
        ensures
            c.pyver@ == "latest"@,
            !c.is32,
            !c.skip_download,
            c.python_mirror@.len() == 0,
            c.pip_mirror@.len() == 0,
            !c.keep_scripts,
            !c.keep_dist_info,
            !c.keep_pip,
            c.optimize == 0,
            c.packages@.len() == 0,
    {
        Config {
            dir: std::path::PathBuf::new(),
            cache_dir: std::path::PathBuf::new(),
            pyver: String::from_str("latest"),
            is32: false,
            skip_download: false,
            python_mirror: String::new(),
            pip_mirror: String::new(),
            keep_scripts: false,
            keep_dist_info: false,
            keep_pip: false,
            optimize: 0,
            packages: Vec::new(),
        }
    }
}

impl Config {
    /// Whether the newest release is asked for.
    pub fn wants_latest(&self) -> (r: bool)
        ensures
            r == wants_latest(self.pyver@),
    {
        self.pyver.as_str().is_empty() || str_eq(self.pyver.as_str(), "latest")
    }

    /// Checks the version selector: `InvalidVersion` unless it is `latest`,
    /// empty, or has the shape of a version number.
    pub fn validate(&self) -> (r: Result<(), Error>)
        ensures
            match r {
                Ok(()) => selector_valid(self.pyver@),
                Err(e) => !selector_valid(self.pyver@) && e == Error::InvalidVersion,
            },
    {
        if self.wants_latest() || version_shaped(self.pyver.as_str()) {
            Ok(())
        } else {
            Err(Error::InvalidVersion)
        }
    }

    /// Whether the package manager stays after the run.
    pub fn keeps_pip(&self) -> (r: bool)
        ensures
            r == keeps_pip(self.keep_pip, string_views(self.packages@)),
    {
        if self.keep_pip {
            return true;
        }
        let ghost names = string_views(self.packages@);
        let mut i: usize = 0;
        while i < self.packages.len()
            invariant
                i <= self.packages.len(),
                names == string_views(self.packages@),
                forall|k: int| 0 <= k < i ==> !is_bootstrap_package(#[trigger] names[k]),
            decreases self.packages.len() - i,
        {
            let name = self.packages[i].as_str();
            assert(names[i as int] == name@);
            if str_eq(name, "pip") || str_eq(name, "setuptools") || str_eq(name, "wheel") {
                return true;
            }
            i += 1;
        }
        false
    }
}

} // verus!
