//! What the interpreter's output means: the version it reports, and the
//! package list that is shown to the user.

use vstd::prelude::*;
use crate::command::succeeded;
use crate::error::{message_of, Error};
use crate::number::{parse_unsigned, parsed};
use crate::record::{log, record_views, Level, Record};
use crate::text::{
    chars_of, has_prefix, lines, lines_of, split, split_on, starts_with, string_of, trim, trimmed,
    views,
};

verus! {

/// The version triple that the interpreter's answer `output` holds: with
/// the white space around it taken off, three numbers from 0 to 255
/// separated by dots. `None` where the answer does not have that form.
pub open spec fn local_version(output: Seq<char>) -> Option<(u8, u8, u8)> {
    let parts = split_on(trimmed(output), '.');
    if parts.len() == 3 {
        match (parsed(parts[0], 0, 255), parsed(parts[1], 0, 255), parsed(parts[2], 0, 255)) {
            (Some(major), Some(minor), Some(micro)) => Some(
                (major as u8, minor as u8, micro as u8),
            ),
            _ => None,
        }
    } else {
        None
    }
}

fn part(text: &Vec<char>) -> (r: Option<u8>)
    ensures
        match r {
            Some(v) => parsed(text@, 0, 255) == Some(v as int),
            None => parsed(text@, 0, 255) is None,
        },
{
    match parse_unsigned(text.as_slice(), 255) {
        Some(v) => Some(v as u8),
        None => None,
    }
}

/// Reads the interpreter's version out of its answer to the version query.
/// An answer of another form gives `LocalVersion`.
pub fn get_local_python_version(output: &str) -> (r: Result<(u8, u8, u8), Error>)
    ensures
        match r {
            Ok(v) => local_version(output@) == Some(v),
            Err(e) => local_version(output@) is None && e == Error::LocalVersion,
        },
{
    let chars = chars_of(output);
    let core = trim(chars.as_slice());
    let parts = split(core.as_slice(), '.');
    if parts.len() != 3 {
        return Err(Error::LocalVersion);
    }
    assert(views(parts@)[0] == parts@[0]@);
    assert(views(parts@)[1] == parts@[1]@);
    assert(views(parts@)[2] == parts@[2]@);
    match (part(&parts[0]), part(&parts[1]), part(&parts[2])) {
        (Some(major), Some(minor), Some(micro)) => Ok((major, minor, micro)),
        _ => Err(Error::LocalVersion),
    }
}

/// `line` of the package list is about the package manager or one of its two
/// build-support packages.
pub open spec fn is_bootstrap_line(line: Seq<char>) -> bool {
    starts_with(line, "pip "@) || starts_with(line, "setuptools "@) || starts_with(line, "wheel "@)
}

/// The lines of the package list that are shown: all but those about the
/// package manager and its build-support packages, in their order.
pub open spec fn shown(lines: Seq<Seq<char>>) -> Seq<Seq<char>>
    decreases lines.len(),
{
    if lines.len() == 0 {
        lines
    } else if is_bootstrap_line(lines.last()) {
        shown(lines.drop_last())
    } else {
        shown(lines.drop_last()).push(lines.last())
    }
}

/// What is logged for a finished package listing. After a success, the
/// shown lines at info level. After a failure, the raw output at info level
/// and then a warning with the exit code.
pub open spec fn listing(stdout: Seq<char>, code: Option<i32>) -> Seq<(Level, Seq<char>)> {
    if succeeded(code) {
        shown(lines_of(stdout)).map_values(|l: Seq<char>| (Level::Info, l))
    } else {
        seq![(Level::Info, stdout), (Level::Warn, message_of(Error::List(code)))]
    }
}

/// Turns the outcome of the package listing into log records. A failed
/// listing is no failure of the run: it gives a warning.
pub fn pip_list(stdout: &str, code: Option<i32>) -> (out: Vec<Record>)
    ensures
        record_views(out@) == listing(stdout@, code),
{
    let mut out: Vec<Record> = Vec::new();
    assert(record_views(out@) =~= Seq::empty());
    match code {
        Some(0) => {
            let chars = chars_of(stdout);
            let all = lines(chars.as_slice());
            let pip = chars_of("pip ");
            let setuptools = chars_of("setuptools ");
            let wheel = chars_of("wheel ");
            let mut i: usize = 0;
            let ghost source = views(all@);
            assert(source.take(0) =~= Seq::<Seq<char>>::empty());
            while i < all.len()
                invariant
                    i <= all.len(),
                    source == views(all@),
                    pip@ == "pip "@,
                    setuptools@ == "setuptools "@,
                    wheel@ == "wheel "@,
                    record_views(out@) == shown(source.take(i as int)).map_values(
                        |l: Seq<char>| (Level::Info, l),
                    ),
                decreases all.len() - i,
            {
                let line = &all[i];
                assert(source[i as int] == line@);
                assert(source.take(i + 1).drop_last() =~= source.take(i as int));
                assert(source.take(i + 1).last() == line@);
                let hidden = has_prefix(line.as_slice(), pip.as_slice()) || has_prefix(
                    line.as_slice(),
                    setuptools.as_slice(),
                ) || has_prefix(line.as_slice(), wheel.as_slice());
                if !hidden {
                    log(&mut out, Level::Info, string_of(line.as_slice()));
                    assert(record_views(out@) =~= shown(source.take(i + 1)).map_values(
                        |l: Seq<char>| (Level::Info, l),
                    ));
                }
                i += 1;
            }
            assert(source.take(i as int) =~= source);
        },
        _ => {
            log(&mut out, Level::Info, stdout.to_owned());
            log(&mut out, Level::Warn, Error::List(code).message());
            assert(record_views(out@) =~= listing(stdout@, code));
        },
    }
    out
}

/// No shown line is about the package manager or its build-support
/// packages, and every shown line is a line of the list.
pub proof fn lemma_shown_hides_bootstrap(lines: Seq<Seq<char>>)
    ensures
        forall|i: int|
            0 <= i < shown(lines).len() ==> !is_bootstrap_line(#[trigger] shown(lines)[i])
                && lines.contains(shown(lines)[i]),
    decreases lines.len(),
{
    if lines.len() > 0 {
        let rest = lines.drop_last();
        lemma_shown_hides_bootstrap(rest);
        assert forall|i: int| 0 <= i < shown(lines).len() implies !is_bootstrap_line(
            #[trigger] shown(lines)[i],
        ) && lines.contains(shown(lines)[i]) by {
            if i < shown(rest).len() {
                let line = shown(rest)[i];
                assert(rest.contains(line));
                let k = choose|k: int| 0 <= k < rest.len() && rest[k] == line;
                assert(lines[k] == line);
            } else {
                assert(shown(lines)[i] == lines[lines.len() - 1]);
            }
        }
    }
}

} // verus!
