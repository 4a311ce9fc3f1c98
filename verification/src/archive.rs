//! Unpacking the interpreter's archive: which directories and files it
//! gives, in the archive's order. The archive is read by the `zip` crate.

use vstd::prelude::*;

verus! {

/// The number of entries of the zip archive `data`; `None` where `data` is
/// not a zip archive that can be opened.
pub uninterp spec fn archive_length(data: Seq<u8>) -> Option<nat>;

/// The name of entry `index` of the zip archive `data`, opened with the
/// empty password; `None` where the entry cannot be opened so.
pub uninterp spec fn archive_entry_name(data: Seq<u8>, index: nat) -> Option<Seq<char>>;

/// The unpacked content of entry `index` of the zip archive `data`, opened
/// with the empty password; `None` where the entry cannot be opened so or
/// read to its end.
pub uninterp spec fn archive_entry_content(data: Seq<u8>, index: nat) -> Option<Seq<u8>>;

/// Opens `data` with `zip::ZipArchive::new` and asks `ZipArchive::len`. An
/// archive that cannot be opened gives the error's text. The contract gives
/// the count its name, `archive_length`.
#[verifier::external_body]
fn entry_count(data: &[u8]) -> (r: Result<usize, String>)
    ensures
        match r {
            Ok(n) => archive_length(data@) == Some(n as nat),
            Err(_) => archive_length(data@) is None,
        },
{
    let archive = zip::ZipArchive::new(std::io::Cursor::new(data)).map_err(|e| e.to_string())?;
    Ok(archive.len())
}

/// Opens `data` with `zip::ZipArchive::new`, opens entry `index` with
/// `ZipArchive::by_index_decrypt` and an empty password, and asks
/// `ZipFile::name`. What the crate does with the password: for an entry that
/// is not marked as encrypted it is dropped, and the entry opens, unless it
/// carries an AES field, which is an error; an entry marked as encrypted is
/// tried with it, which is an error where the crate lacks the cipher or
/// finds the password wrong, and opens the entry where the crate's check of
/// the password passes, be it by chance. `by_index` is not called because
/// it unwraps the outcome and so panics on the entry with the AES field.
/// The contract gives the name its name, `archive_entry_name`, whatever the
/// outcome.
#[verifier::external_body]
fn entry_name(data: &[u8], index: usize) -> (r: Result<String, String>)
    ensures
        match r {
            Ok(name) => archive_entry_name(data@, index as nat) == Some(name@),
            Err(_) => archive_entry_name(data@, index as nat) is None,
        },
{
    let mut archive = zip::ZipArchive::new(std::io::Cursor::new(data)).map_err(|e| e.to_string())?;
    let opened = archive.by_index_decrypt(index, &[]).map_err(|e| e.to_string())?;
    let file = opened.map_err(|e| e.to_string())?;
    Ok(file.name().to_string())
}

/// Opens entry `index` of `data` as `entry_name` does and reads it to its
/// end with `std::io::Read::read_to_end`. The contract gives the bytes read
/// their name, `archive_entry_content`.
#[verifier::external_body]
fn entry_content(data: &[u8], index: usize) -> (r: Result<Vec<u8>, String>)
    ensures
        match r {
            Ok(content) => archive_entry_content(data@, index as nat) == Some(content@),
            Err(_) => archive_entry_content(data@, index as nat) is None,
        },
{
    let mut archive = zip::ZipArchive::new(std::io::Cursor::new(data)).map_err(|e| e.to_string())?;
    let opened = archive.by_index_decrypt(index, &[]).map_err(|e| e.to_string())?;
    let mut file = opened.map_err(|e| e.to_string())?;
    let mut content = Vec::new();
    std::io::Read::read_to_end(&mut file, &mut content).map_err(|e| e.to_string())?;
    Ok(content)
}

/// One step of unpacking.
#[derive(Debug)]
pub enum FileOp {
    /// Create the target directory, with its parents, if it is not there.
    CreateTarget,
    /// Create this directory below the target, with its parents.
    CreateDir(String),
    /// Create this file below the target, or overwrite it, with this content.
    WriteFile(String, Vec<u8>),
}

/// One step of unpacking, with its name and content as sequences.
pub enum FileOpView {
    CreateTarget,
    CreateDir(Seq<char>),
    WriteFile(Seq<char>, Seq<u8>),
}

impl View for FileOp {
    type V = FileOpView;

    open spec fn view(&self) -> FileOpView {
        match self {
            FileOp::CreateTarget => FileOpView::CreateTarget,
            FileOp::CreateDir(name) => FileOpView::CreateDir(name@),
            FileOp::WriteFile(name, content) => FileOpView::WriteFile(name@, content@),
        }
    }
}

/// The steps, each by its view.
pub open spec fn op_views(ops: Seq<FileOp>) -> Seq<FileOpView> {
    ops.map_values(|op: FileOp| op@)
}

/// An entry is a directory if its name ends in a slash or a backslash.
pub open spec fn is_dir_name(name: Seq<char>) -> bool {
    name.len() > 0 && (name.last() == '/' || name.last() == '\\')
}

/// What entry `index` of the archive `data` unpacks to: a directory for a
/// directory's name, else a file with the entry's content. `None` where the
/// entry cannot be opened, or is a file that cannot be read.
pub open spec fn entry_op(data: Seq<u8>, index: nat) -> Option<FileOpView> {
    match archive_entry_name(data, index) {
        None => None,
        Some(name) => if is_dir_name(name) {
            Some(FileOpView::CreateDir(name))
        } else {
            match archive_entry_content(data, index) {
                Some(content) => Some(FileOpView::WriteFile(name, content)),
                None => None,
            }
        },
    }
}

/// The index of the first entry from `from` on that does not unpack, or
/// `count` if all of them do.
pub open spec fn first_unreadable(data: Seq<u8>, count: nat, from: nat) -> nat
    decreases count - from,
{
    if from >= count {
        count
    } else if entry_op(data, from) is None {
        from
    } else {
        first_unreadable(data, count, from + 1)
    }
}

/// The steps that unpack the first `count` entries of `data`, after the
/// step that creates the target.
pub open spec fn unpack_ops(data: Seq<u8>, count: nat) -> Seq<FileOpView> {
    seq![FileOpView::CreateTarget] + Seq::new(count, |i: int| entry_op(data, i as nat)->0)
}

/// The outcome of unpacking an archive: the steps to carry out, in order,
/// and, where the archive could not be unpacked to its end, the cause.
/// The steps are to be carried out even then: nothing is rolled back.
#[derive(Debug)]
pub struct Extraction {
    pub ops: Vec<FileOp>,
    pub failure: Option<String>,
}

fn is_dir(name: &str) -> (r: bool)
    ensures
        r == is_dir_name(name@),
{
    let chars = crate::text::chars_of(name);
    chars.len() > 0 && (chars[chars.len() - 1] == '/' || chars[chars.len() - 1] == '\\')
}

/// Unpacks the archive `data` into steps. An archive that cannot be opened
/// gives no step and a failure. Else the target is created, and every entry
/// gives one step, up to the first entry that cannot be opened or read: there
/// the steps end with a failure.
pub fn extract(data: &[u8]) -> (r: Extraction)
    ensures
        match archive_length(data@) {
            None => r.ops@.len() == 0 && r.failure is Some,
            Some(count) => {
                let good = first_unreadable(data@, count, 0);
                &&& op_views(r.ops@) == unpack_ops(data@, good)
                &&& r.failure is None <==> good == count
            },
        },
{
    let count = match entry_count(data) {
        Ok(n) => n,
        Err(cause) => {
            return Extraction { ops: Vec::new(), failure: Some(cause) };
        },
    };
    let mut ops: Vec<FileOp> = Vec::new();
    ops.push(FileOp::CreateTarget);
    assert(op_views(ops@) =~= unpack_ops(data@, 0));
    let mut i: usize = 0;
    while i < count
        invariant
            i <= count,
            archive_length(data@) == Some(count as nat),
            first_unreadable(data@, count as nat, 0) == first_unreadable(
                data@,
                count as nat,
                i as nat,
            ),
            op_views(ops@) == unpack_ops(data@, i as nat),
        decreases count - i,
    {
        let ghost before = ops@;
        let name = match entry_name(data, i) {
            Ok(name) => name,
            Err(cause) => {
                return Extraction { ops, failure: Some(cause) };
            },
        };
        if is_dir(name.as_str()) {
            ops.push(FileOp::CreateDir(name));
        } else {
            match entry_content(data, i) {
                Ok(content) => {
                    ops.push(FileOp::WriteFile(name, content));
                },
                Err(cause) => {
                    return Extraction { ops, failure: Some(cause) };
                },
            }
        }
        assert(op_views(ops@) =~= op_views(before).push(entry_op(data@, i as nat)->0));
        i += 1;
        assert(op_views(ops@) =~= unpack_ops(data@, i as nat));
    }
    Extraction { ops, failure: None }
}

} // verus!
