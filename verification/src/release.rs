//! One release of the interpreter: where its pages and files are, and what
//! the downloaded archive is called.

use vstd::prelude::*;
use vstd::string::StringExecFns;
use crate::text::{chars_of, remove, string_of, without};

verus! {

/// The page that advertises the latest release.
pub const DOWNLOADS_PAGE: &'static str = "https://www.python.org/downloads/windows/";

/// Where the bootstrap script of the package manager is fetched from.
pub const BOOTSTRAP_URL: &'static str = "https://bootstrap.pypa.io/get-pip.py";

/// The name under which the bootstrap script is kept in the working
/// directory.
pub const BOOTSTRAP_FILE: &'static str = "get-pip.py";

/// The name of the tree's directory inside the working directory.
pub const TARGET_DIR: &'static str = "pyembed_runtime";

/// The name of the architecture in an archive's name.
pub open spec fn arch(is32: bool) -> Seq<char> {
    if is32 {
        "x86"@
    } else {
        "amd64"@
    }
}

/// The file name of the embeddable archive of `version`.
pub open spec fn archive_file(version: Seq<char>, is32: bool) -> Seq<char> {
    "python-"@ + version + "-embed-"@ + arch(is32) + ".zip"@
}

/// The address of the page that describes the release `version`: the
/// version goes into it without its dots.
pub open spec fn release_page(version: Seq<char>) -> Seq<char> {
    "https://www.python.org/downloads/release/python-"@ + without(version, '.') + "/"@
}

/// The file name of the embeddable archive of `version`.
pub fn archive_name(version: &str, is32: bool) -> (name: String)
    ensures
        name@ == archive_file(version@, is32),
{
    let mut name = String::from_str("python-");
    name.append(version);
    name.append("-embed-");
    if is32 {
        name.append("x86");
    } else {
        name.append("amd64");
    }
    name.append(".zip");
    name
}

/// The address of the page that describes the release `version`.
pub fn release_page_url(version: &str) -> (url: String)
    ensures
        url@ == release_page(version@),
{
    let chars = chars_of(version);
    let plain = remove(chars.as_slice(), '.');
    let mut url = String::from_str("https://www.python.org/downloads/release/python-");
    url.append(string_of(plain.as_slice()).as_str());
    url.append("/");
    url
}

} // verus!
