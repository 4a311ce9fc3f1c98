//! The request as a form: what a form shows for a request, and what a
//! filled-in form makes of the request.

use vstd::prelude::*;
use vstd::string::StringExecFns;
use crate::command::string_views;
use crate::config::{selector_valid, Config};
use crate::error::Error;
use crate::pattern::version_shaped;
use crate::text::{chars_of, str_eq, string_of, views, words, words_of};

verus! {

/// The fields of the form.
#[derive(Debug)]
pub struct Form {
    /// The working directory.
    pub dir: std::path::PathBuf,
    /// Whether a version is given; without it the newest release is meant.
    pub version_checked: bool,
    /// The version, read only where `version_checked` is set.
    pub version: String,
    pub is32: bool,
    pub skip_download: bool,
    /// The package index for the requested packages.
    pub mirror: String,
    pub keep_scripts: bool,
    pub keep_dist_info: bool,
    pub keep_pip: bool,
    /// The packages to install, separated by white space.
    pub packages: String,
}

/// The version selector that a form stands for: the version given, or
/// `latest` where none is given or the field is empty.
pub open spec fn chosen(version_checked: bool, version: Seq<char>) -> Seq<char> {
    if version_checked && version.len() > 0 {
        version
    } else {
        "latest"@
    }
}

/// The package names as the form shows them: each on a line of its own.
pub open spec fn listed(packages: Seq<Seq<char>>) -> Seq<char>
    decreases packages.len(),
{
    if packages.len() == 0 {
        Seq::empty()
    } else {
        listed(packages.drop_last()) + packages.last() + "\r\n"@
    }
}

impl Form {
    /// Whether the form names no package at all. A caller may want to ask
    /// before it goes on with such a form.
    pub fn names_no_package(&self) -> (r: bool)
        ensures
            r == (words_of(self.packages@).len() == 0),
    {
        let chars = chars_of(self.packages.as_str());
        let names = words(chars.as_slice());
        assert(views(names@).len() == names@.len());
        names.len() == 0
    }
}

/// The main form's handler: it works on the caller's request.
pub struct MainProc<'a> {
    pub config: &'a mut Config,
}

impl<'a> MainProc<'a> {
    /// The request as it stands.
    pub open spec fn request(&self) -> Config {
        *self.config
    }

    /// The form as it is shown at first, filled in from the request.
    pub fn form(&self) -> (form: Form)
        ensures
            form.dir == self.request().dir,
            form.version@ == self.request().pyver@,
            form.version_checked == (self.request().pyver@ != "latest"@),
            form.is32 == self.request().is32,
            form.skip_download == self.request().skip_download,
            form.mirror@ == self.request().pip_mirror@,
            form.keep_scripts == self.request().keep_scripts,
            form.keep_dist_info == self.request().keep_dist_info,
            form.keep_pip == self.request().keep_pip,
            form.packages@ == listed(string_views(self.request().packages@)),
    {
        let mut packages = String::new();
        let ghost names = string_views(self.config.packages@);
        let mut i: usize = 0;
        assert(names.take(0) =~= Seq::<Seq<char>>::empty());
        while i < self.config.packages.len()
            invariant
                i <= self.config.packages.len(),
                names == string_views(self.config.packages@),
                packages@ == listed(names.take(i as int)),
            decreases self.config.packages.len() - i,
        {
            assert(names[i as int] == self.config.packages@[i as int]@);
            assert(names.take(i + 1).drop_last() =~= names.take(i as int));
            assert(names.take(i + 1).last() == names[i as int]);
            packages.append(self.config.packages[i].as_str());
            packages.append("\r\n");
            i += 1;
        }
        assert(names.take(i as int) =~= names);
        Form {
            dir: self.config.dir.clone(),
            version_checked: !str_eq(self.config.pyver.as_str(), "latest"),
            version: self.config.pyver.clone(),
            is32: self.config.is32,
            skip_download: self.config.skip_download,
            mirror: self.config.pip_mirror.clone(),
            keep_scripts: self.config.keep_scripts,
            keep_dist_info: self.config.keep_dist_info,
            keep_pip: self.config.keep_pip,
            packages,
        }
    }

    /// Takes the filled-in form into the request. The form's version must be
    /// `latest` or have the shape of a version number: else nothing is
    /// changed and `InvalidVersion` comes back. The packages are the words
    /// of the form's package field. What the form has no field for stays as
    /// it is.
    pub fn submit(&mut self, form: &Form) -> (r: Result<(), Error>)
        ensures
            *final(final(self).config) == *final(old(self).config),
            r is Ok <==> selector_valid(chosen(form.version_checked, form.version@)),
            r matches Err(e) ==> e == Error::InvalidVersion && final(self).request() == old(
                self,
            ).request(),
            r is Ok ==> {
                let after = final(self).request();
                let before = old(self).request();
                &&& after.dir == form.dir
                &&& after.pyver@ == chosen(form.version_checked, form.version@)
                &&& after.is32 == form.is32
                &&& after.skip_download == form.skip_download
                &&& after.pip_mirror@ == form.mirror@
                &&& after.keep_scripts == form.keep_scripts
                &&& after.keep_dist_info == form.keep_dist_info
                &&& after.keep_pip == form.keep_pip
                &&& string_views(after.packages@) == words_of(form.packages@)
                &&& after.cache_dir == before.cache_dir
                &&& after.python_mirror == before.python_mirror
                &&& after.optimize == before.optimize
            },
    {
        let version = if form.version_checked && !form.version.as_str().is_empty() {
            form.version.clone()
        } else {
            String::from_str("latest")
        };
        if !str_eq(version.as_str(), "latest") && !version_shaped(version.as_str()) {
            proof {
                reveal_strlit("latest");
            }
            return Err(Error::InvalidVersion);
        }
        let chars = chars_of(form.packages.as_str());
        let names = words(chars.as_slice());
        let mut packages: Vec<String> = Vec::new();
        let mut i: usize = 0;
        assert(string_views(packages@) =~= views(names@).take(0));
        while i < names.len()
            invariant
                i <= names.len(),
                string_views(packages@) == views(names@).take(i as int),
            decreases names.len() - i,
        {
            let ghost before = packages@;
            let name = string_of(names[i].as_slice());
            packages.push(name);
            assert(string_views(packages@) =~= string_views(before).push(names@[i as int]@));
            i += 1;
            assert(views(names@).take(i as int) =~= views(names@).take(i - 1).push(
                names@[i - 1]@,
            ));
        }
        assert(views(names@).take(i as int) =~= views(names@));
        self.config.dir = form.dir.clone();
        self.config.pyver = version;
        self.config.is32 = form.is32;
        self.config.skip_download = form.skip_download;
        self.config.pip_mirror = form.mirror.clone();
        self.config.keep_scripts = form.keep_scripts;
        self.config.keep_dist_info = form.keep_dist_info;
        self.config.keep_pip = form.keep_pip;
        self.config.packages = packages;
        Ok(())
    }
}

} // verus!
