//! What is read out of the distributor's web pages, and the shape of a
//! version number. The matching itself is done by the `regex` crate.

use vstd::prelude::*;
use crate::error::{Error, Lookup};

verus! {

/// The capture groups of the leftmost match of the regular expression
/// `pattern` in `text`, with `.` matching line feeds too: group 0 is the whole
/// match, and a group that took no part in the match is `None`. `None` when
/// there is no match or `pattern` is not a regular expression.
pub uninterp spec fn regex_captures(pattern: Seq<char>, text: Seq<char>) -> Option<
    Seq<Option<Seq<char>>>,
>;

/// The text of each capture group.
pub open spec fn group_views(groups: Seq<Option<String>>) -> Seq<Option<Seq<char>>> {
    groups.map_values(
        |g: Option<String>|
            match g {
                Some(s) => Some(s@),
                None => None,
            },
    )
}

/// Calls `regex::RegexBuilder::new(re).dot_matches_new_line(true).build()` and
/// then `regex::Regex::captures` on `text`. The contract only gives the
/// outcome its name, `regex_captures`: nothing is claimed of what matches.
#[verifier::external_body]
pub(crate) fn regex_find(re: &str, text: &str) -> (r: Option<Vec<Option<String>>>)
    ensures
        match r {
            Some(groups) => regex_captures(re@, text@) == Some(group_views(groups@)),
            None => regex_captures(re@, text@) is None,
        },
{
    let re = regex::RegexBuilder::new(re).dot_matches_new_line(true).build().ok()?;
    let caps = re.captures(text)?;
    Some(caps.iter().map(|m| m.map(|m| m.as_str().to_string())).collect())
}

/// The pattern of a version number: three runs of digits separated by dots,
/// and nothing else.
pub const VERSION_PATTERN: &'static str = r"^\d+\.\d+\.\d+$";

/// The pattern that finds the latest release on the downloads page. Its one
/// group is the version.
pub const LATEST_PATTERN: &'static str = r"Latest Python 3 Release - Python ([\d\.]+)";

/// The pattern that finds the 64-bit embeddable archive on a release page.
/// Its two groups are the archive's link and its hash.
pub const DOWNLOAD_PATTERN_64: &'static str =
    r#""([^"]*?)">Windows x86\-64 embeddable zip file.*?([a-fA-F0-9]{32})"#;

/// The pattern that finds the 32-bit embeddable archive on a release page.
/// Its two groups are the archive's link and its hash.
pub const DOWNLOAD_PATTERN_32: &'static str =
    r#""([^"]*?)">Windows x86 embeddable zip file.*?([a-fA-F0-9]{32})"#;

/// The pattern that finds the embeddable archive on a release page, for the
/// 32-bit or the 64-bit build.
pub open spec fn download_pattern(is32: bool) -> Seq<char> {
    if is32 {
        DOWNLOAD_PATTERN_32@
    } else {
        DOWNLOAD_PATTERN_64@
    }
}

/// `s` has the shape of a version number.
pub open spec fn is_version(s: Seq<char>) -> bool {
    regex_captures(VERSION_PATTERN@, s) is Some
}

/// Whether `s` has the shape of a version number.
pub fn version_shaped(s: &str) -> (r: bool)
    ensures
        r == is_version(s@),
{
    regex_find(VERSION_PATTERN, s).is_some()
}

/// The text of capture group `index`, if the match has that group and the
/// group took part in it.
pub open spec fn group(found: Option<Seq<Option<Seq<char>>>>, index: int) -> Option<Seq<char>> {
    match found {
        Some(groups) => if 0 <= index < groups.len() {
            groups[index]
        } else {
            None
        },
        None => None,
    }
}

/// The version that a match of the latest-release pattern holds: its first
/// group, where that has the shape of a version number. A group of another
/// shape, such as `3.9`, is no version.
pub open spec fn latest_version_in(found: Option<Seq<Option<Seq<char>>>>) -> Option<Seq<char>> {
    match group(found, 1) {
        Some(version) => if is_version(version) {
            Some(version)
        } else {
            None
        },
        None => None,
    }
}

/// The link and the hash that a match of the download pattern holds: its two
/// groups, where the match has exactly those.
pub open spec fn download_info_in(found: Option<Seq<Option<Seq<char>>>>) -> Option<
    (Seq<char>, Seq<char>),
> {
    match found {
        Some(groups) => if groups.len() == 3 && groups[1] is Some && groups[2] is Some {
            Some((groups[1]->0, groups[2]->0))
        } else {
            None
        },
        None => None,
    }
}

/// Reads the latest version out of the groups of a match. The first group
/// is the version if it has the shape of a version number; a match without
/// that group, or with a group of another shape, gives `NotFound`.
pub fn latest_version_from(found: Option<Vec<Option<String>>>) -> (r: Result<String, Error>)
    ensures
        match r {
            Ok(v) => latest_version_in(found_view(found)) == Some(v@) && is_version(v@),
            Err(e) => latest_version_in(found_view(found)) is None && e == Error::NotFound(
                Lookup::LatestVersion,
            ),
        },
{
    match found {
        Some(groups) => {
            if groups.len() > 1 {
                match &groups[1] {
                    Some(v) => {
                        if version_shaped(v.as_str()) {
                            Ok(v.clone())
                        } else {
                            Err(Error::NotFound(Lookup::LatestVersion))
                        }
                    },
                    None => Err(Error::NotFound(Lookup::LatestVersion)),
                }
            } else {
                Err(Error::NotFound(Lookup::LatestVersion))
            }
        },
        None => Err(Error::NotFound(Lookup::LatestVersion)),
    }
}

/// The groups of a match, each by its text.
pub open spec fn found_view(found: Option<Vec<Option<String>>>) -> Option<Seq<Option<Seq<char>>>> {
    match found {
        Some(groups) => Some(group_views(groups@)),
        None => None,
    }
}

/// Reads the archive's link and hash out of the groups of a match.
pub fn download_info_from(found: Option<Vec<Option<String>>>) -> (r: Result<
    (String, String),
    Error,
>)
    ensures
        match r {
            Ok((url, hash)) => download_info_in(found_view(found)) == Some((url@, hash@)),
            Err(e) => download_info_in(found_view(found)) is None && e == Error::NotFound(
                Lookup::DownloadInfo,
            ),
        },
{
    match found {
        Some(groups) => {
            if groups.len() == 3 {
                match (&groups[1], &groups[2]) {
                    (Some(url), Some(hash)) => Ok((url.clone(), hash.clone())),
                    _ => Err(Error::NotFound(Lookup::DownloadInfo)),
                }
            } else {
                Err(Error::NotFound(Lookup::DownloadInfo))
            }
        },
        None => Err(Error::NotFound(Lookup::DownloadInfo)),
    }
}

/// The latest version that the downloads page `body` advertises: what the
/// latest-release pattern finds there, if it has the shape of a version
/// number.
pub open spec fn latest_version_of(body: Seq<char>) -> Option<Seq<char>> {
    latest_version_in(regex_captures(LATEST_PATTERN@, body))
}

/// Whatever the downloads page holds, a version read from it has the shape
/// of a version number.
pub proof fn lemma_latest_version_is_version(body: Seq<char>)
    ensures
        latest_version_of(body) matches Some(version) ==> is_version(version),
{
}

/// The archive's link and hash that the release page `body` gives.
pub open spec fn download_info_of(body: Seq<char>, is32: bool) -> Option<(Seq<char>, Seq<char>)> {
    download_info_in(regex_captures(download_pattern(is32), body))
}

/// Finds the number of the latest release in the downloads page `body`.
/// A page that does not advertise a release, or advertises one whose number
/// has not the shape of a version number, gives `NotFound`.
pub fn get_latest_python_version(body: &str) -> (r: Result<String, Error>)
    ensures
        match r {
            Ok(v) => latest_version_of(body@) == Some(v@) && is_version(v@),
            Err(e) => latest_version_of(body@) is None && e == Error::NotFound(
                Lookup::LatestVersion,
            ),
        },
{
    latest_version_from(regex_find(LATEST_PATTERN, body))
}

/// Finds the embeddable archive's link and hash in the release page `body`.
pub fn get_python_download_info(body: &str, is32: bool) -> (r: Result<(String, String), Error>)
    ensures
        match r {
            Ok((url, hash)) => download_info_of(body@, is32) == Some((url@, hash@)),
            Err(e) => download_info_of(body@, is32) is None && e == Error::NotFound(
                Lookup::DownloadInfo,
            ),
        },
{
    let found = if is32 {
        regex_find(DOWNLOAD_PATTERN_32, body)
    } else {
        regex_find(DOWNLOAD_PATTERN_64, body)
    };
    download_info_from(found)
}

} // verus!
