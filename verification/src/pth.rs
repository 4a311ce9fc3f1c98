//! The interpreter's search-path file: its name, and the rewrite that makes
//! sure the line `import site` is active in it.

use vstd::prelude::*;
use vstd::string::StringExecFns;
use crate::number::{decimal, render};
use crate::text::{
    chars_of, free_of, join, join_with, lemma_split_of_join, lemma_split_pieces_are_free, lines,
    lines_of, same, slice_of, split_on, string_of, strip_cr, trim, trimmed, views,
};

verus! {

/// The line that makes site-packages importable.
pub open spec fn import_site() -> Seq<char> {
    "import site"@
}

/// `line` without its leading `#` characters.
pub open spec fn without_hashes(line: Seq<char>) -> Seq<char>
    decreases line.len(),
{
    if line.len() > 0 && line[0] == '#' {
        without_hashes(line.drop_first())
    } else {
        line
    }
}

/// `line` is the import line, active or commented out: either the line is
/// `import site` exactly, or it starts with `#` and what follows the `#`
/// characters is `import site` with white space around it.
pub open spec fn names_site(line: Seq<char>) -> bool {
    if line.len() > 0 && line[0] == '#' {
        trimmed(without_hashes(line)) == import_site()
    } else {
        line == import_site()
    }
}

/// What becomes of one line: the import line is made active, any other line
/// stays as it is.
pub open spec fn fixed_line(line: Seq<char>) -> Seq<char> {
    if names_site(line) {
        import_site()
    } else {
        line
    }
}

/// One of the lines is the import line.
pub open spec fn any_names_site(lines: Seq<Seq<char>>) -> bool {
    exists|i: int| 0 <= i < lines.len() && names_site(#[trigger] lines[i])
}

/// What becomes of the file's lines: each line is fixed, and the import line
/// is added at the end if no line was it.
pub open spec fn fixed_lines(lines: Seq<Seq<char>>) -> Seq<Seq<char>> {
    let fixed = lines.map_values(|l: Seq<char>| fixed_line(l));
    if any_names_site(lines) {
        fixed
    } else {
        fixed.push(import_site())
    }
}

/// The new content of a search-path file whose content is `content`.
pub open spec fn fixed_pth(content: Seq<char>) -> Seq<char> {
    join_with(fixed_lines(lines_of(content)), '\n')
}

/// The name of the search-path file of interpreter version `major.minor`.
pub open spec fn pth_name(major: u8, minor: u8) -> Seq<char> {
    "python"@ + decimal(major as nat) + decimal(minor as nat) + "._pth"@
}

/// The name of the search-path file of interpreter version `major.minor`.
pub fn pth_file_name(major: u8, minor: u8) -> (name: String)
    ensures
        name@ == pth_name(major, minor),
{
    let mut name = String::from_str("python");
    name.append(string_of(render(major as u64).as_slice()).as_str());
    name.append(string_of(render(minor as u64).as_slice()).as_str());
    name.append("._pth");
    name
}

fn strip_hashes(line: &[char]) -> (out: Vec<char>)
    ensures
        out@ == without_hashes(line@),
{
    let mut i: usize = 0;
    assert(line@.skip(0) =~= line@);
    while i < line.len() && line[i] == '#'
        invariant
            i <= line.len(),
            without_hashes(line@) == without_hashes(line@.skip(i as int)),
        decreases line.len() - i,
    {
        assert(line@.skip(i as int).drop_first() =~= line@.skip(i + 1));
        i += 1;
    }
    assert(line@.subrange(i as int, line.len() as int) =~= line@.skip(i as int));
    slice_of(line, i, line.len())
}

fn is_import_line(line: &[char], wanted: &[char]) -> (r: bool)
    requires
        wanted@ == import_site(),
    ensures
        r == names_site(line@),
{
    if line.len() > 0 && line[0] == '#' {
        let rest = strip_hashes(line);
        let core = trim(rest.as_slice());
        same(core.as_slice(), wanted)
    } else {
        same(line, wanted)
    }
}

/// Rewrites the content of a search-path file so that `import site` is
/// active: a line that is `import site`, commented out or not, becomes
/// `import site`; if there is none, the line is added at the end. Lines are
/// joined by line feeds, with none after the last.
pub fn ensure_pth(content: &str) -> (out: String)
    ensures
        out@ == fixed_pth(content@),
{
    let chars = chars_of(content);
    let wanted = chars_of("import site");
    let old_lines = lines(chars.as_slice());
    let ghost source = views(old_lines@);
    let ghost target = source.map_values(|l: Seq<char>| fixed_line(l));
    let mut new_lines: Vec<Vec<char>> = Vec::new();
    let mut found = false;
    let mut i: usize = 0;
    while i < old_lines.len()
        invariant
            i <= old_lines.len(),
            wanted@ == import_site(),
            source == views(old_lines@),
            target == source.map_values(|l: Seq<char>| fixed_line(l)),
            views(new_lines@) == target.take(i as int),
            found == any_names_site(source.take(i as int)),
        decreases old_lines.len() - i,
    {
        let line = &old_lines[i];
        assert(source[i as int] == line@);
        let ghost before = new_lines@;
        let hit = is_import_line(line.as_slice(), wanted.as_slice());
        let fixed = if hit {
            slice_of(wanted.as_slice(), 0, wanted.len())
        } else {
            slice_of(line.as_slice(), 0, line.len())
        };
        assert(fixed@ =~= fixed_line(line@));
        new_lines.push(fixed);
        assert(views(new_lines@) =~= views(before).push(fixed@));
        proof {
            let shorter = source.take(i as int);
            let longer = source.take(i + 1);
            assert(target.take(i + 1) =~= target.take(i as int).push(target[i as int]));
            if any_names_site(shorter) {
                let k = choose|k: int| 0 <= k < shorter.len() && names_site(#[trigger] shorter[k]);
                assert(longer[k] == shorter[k]);
            }
            if hit {
                assert(names_site(longer[i as int]));
            }
            if any_names_site(longer) {
                let k = choose|k: int| 0 <= k < longer.len() && names_site(#[trigger] longer[k]);
                if k < i {
                    assert(shorter[k] == longer[k]);
                }
            }
        }
        found = found || hit;
        i += 1;
    }
    assert(source.take(i as int) =~= source);
    assert(target.take(i as int) =~= target);
    if !found {
        let ghost before = new_lines@;
        let line = slice_of(wanted.as_slice(), 0, wanted.len());
        assert(line@ =~= import_site());
        new_lines.push(line);
        assert(views(new_lines@) =~= views(before).push(import_site()));
    }
    let joined = join(&new_lines, '\n');
    string_of(joined.as_slice())
}

/// After the rewrite one of the lines is exactly `import site`.
pub proof fn lemma_fixed_lines_import_site(lines: Seq<Seq<char>>)
    ensures
        fixed_lines(lines).contains(import_site()),
{
    let fixed = lines.map_values(|l: Seq<char>| fixed_line(l));
    if any_names_site(lines) {
        let k = choose|k: int| 0 <= k < lines.len() && names_site(#[trigger] lines[k]);
        assert(fixed[k] == import_site());
    } else {
        assert(fixed.push(import_site())[lines.len() as int] == import_site());
    }
}

/// The rewrite keeps every line in its place: line `i` of the result is what
/// becomes of line `i` of the input, and at most one line is added.
pub proof fn lemma_fixed_lines_keep_order(lines: Seq<Seq<char>>, i: int)
    requires
        0 <= i < lines.len(),
    ensures
        lines.len() <= fixed_lines(lines).len() <= lines.len() + 1,
        fixed_lines(lines)[i] == fixed_line(lines[i]),
{
}

/// No line of a text holds a line feed.
pub proof fn lemma_lines_are_free(s: Seq<char>)
    ensures
        free_of(lines_of(s), '\n'),
{
    let pieces = split_on(s, '\n');
    lemma_split_pieces_are_free(s, '\n');
    let lines = lines_of(s);
    assert forall|i: int| 0 <= i < lines.len() implies !(#[trigger] lines[i]).contains('\n') by {
        if i < pieces.len() - 1 {
            let piece = pieces[i];
            assert(lines[i] == strip_cr(piece));
            if lines[i].contains('\n') {
                let k = choose|k: int| 0 <= k < lines[i].len() && lines[i][k] == '\n';
                assert(piece[k] == '\n');
            }
        } else {
            assert(lines[i] == pieces[i]);
        }
    }
}

/// The rewrite does what it is for: the new content, read line by line
/// again, has the line `import site`.
pub proof fn lemma_fixed_pth_enables_site(content: Seq<char>)
    ensures
        lines_of(fixed_pth(content)).contains(import_site()),
{
    reveal_strlit("import site");
    let wanted = import_site();
    assert(wanted.len() == 11);
    assert(!wanted.contains('\n')) by {
        if wanted.contains('\n') {
            let k = choose|k: int| 0 <= k < wanted.len() && wanted[k] == '\n';
        }
    }
    let old_lines = lines_of(content);
    lemma_lines_are_free(content);
    let fixed = fixed_lines(old_lines);
    lemma_fixed_lines_import_site(old_lines);
    let at = choose|k: int| 0 <= k < fixed.len() && fixed[k] == wanted;
    assert(free_of(fixed, '\n')) by {
        assert forall|i: int| 0 <= i < fixed.len() implies !(#[trigger] fixed[i]).contains(
            '\n',
        ) by {
            if i < old_lines.len() {
                assert(fixed[i] == fixed_line(old_lines[i]));
                assert(!old_lines[i].contains('\n'));
            } else {
                assert(fixed[i] == wanted);
            }
        }
    }
    lemma_split_of_join(fixed, '\n');
    let again = lines_of(fixed_pth(content));
    assert(split_on(fixed_pth(content), '\n') == fixed);
    if at < fixed.len() - 1 {
        assert(again[at] == strip_cr(fixed[at]));
        assert(wanted.last() == 'e');
        assert(again[at] == wanted);
    } else {
        assert(fixed.last() == wanted);
        assert(again[fixed.len() - 1] == wanted);
    }
}

} // verus!
