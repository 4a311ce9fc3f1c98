//! What is pruned from a provisioned tree, and when a target directory
//! counts as empty.

use vstd::prelude::*;
use vstd::string::StringExecFns;
use crate::text::{chars_of, ends_with, has_suffix};

verus! {

/// A target directory is fit for a fresh run if it does not exist or holds
/// nothing.
pub open spec fn target_is_empty(present: bool, entries: nat) -> bool {
    !present || entries == 0
}

/// Whether a target directory is fit for a fresh run, from whether it exists
/// and how many entries it holds.
pub fn is_empty_dir(present: bool, entries: usize) -> (r: bool)
    ensures
        r == target_is_empty(present, entries as nat),
{
    !present || entries == 0
}

/// One entry of the installed-packages directory.
#[derive(Debug)]
pub struct Entry {
    pub name: String,
    pub is_dir: bool,
}

impl View for Entry {
    type V = (Seq<char>, bool);

    open spec fn view(&self) -> (Seq<char>, bool) {
        (self.name@, self.is_dir)
    }
}

/// The entries, each by its name and kind.
pub open spec fn entry_views(entries: Seq<Entry>) -> Seq<(Seq<char>, bool)> {
    entries.map_values(|e: Entry| e@)
}

/// A directory to remove from the tree.
#[derive(Debug)]
pub enum Removal {
    /// The directory of generated scripts, `Scripts`.
    Scripts,
    /// The metadata directory of this name in `Lib/site-packages`.
    Metadata(String),
}

/// A directory to remove, with its name as a sequence of characters.
pub enum RemovalView {
    Scripts,
    Metadata(Seq<char>),
}

impl View for Removal {
    type V = RemovalView;

    open spec fn view(&self) -> RemovalView {
        match self {
            Removal::Scripts => RemovalView::Scripts,
            Removal::Metadata(name) => RemovalView::Metadata(name@),
        }
    }
}

/// The removals, each by its view.
pub open spec fn removal_views(removals: Seq<Removal>) -> Seq<RemovalView> {
    removals.map_values(|r: Removal| r@)
}

/// The entry is a package's metadata directory: a directory whose name ends
/// in `.dist-info`.
pub open spec fn is_metadata(entry: (Seq<char>, bool)) -> bool {
    entry.1 && ends_with(entry.0, ".dist-info"@)
}

/// The metadata directories among the entries, in their order.
pub open spec fn metadata(entries: Seq<(Seq<char>, bool)>) -> Seq<RemovalView>
    decreases entries.len(),
{
    if entries.len() == 0 {
        Seq::empty()
    } else if is_metadata(entries.last()) {
        metadata(entries.drop_last()).push(RemovalView::Metadata(entries.last().0))
    } else {
        metadata(entries.drop_last())
    }
}

/// What cleanup removes: the scripts directory if it exists and is not
/// kept, then every metadata directory unless metadata is kept.
pub open spec fn removals(
    keep_scripts: bool,
    keep_dist_info: bool,
    scripts_present: bool,
    entries: Seq<(Seq<char>, bool)>,
) -> Seq<RemovalView> {
    let scripts = if !keep_scripts && scripts_present {
        seq![RemovalView::Scripts]
    } else {
        Seq::empty()
    };
    let packages = if !keep_dist_info {
        metadata(entries)
    } else {
        Seq::empty()
    };
    scripts + packages
}

/// Lists the directories that cleanup removes, in the order of removal.
pub fn cleanup(
    keep_scripts: bool,
    keep_dist_info: bool,
    scripts_present: bool,
    entries: &Vec<Entry>,
) -> (out: Vec<Removal>)
    ensures
        removal_views(out@) == removals(
            keep_scripts,
            keep_dist_info,
            scripts_present,
            entry_views(entries@),
        ),
{
    let mut out: Vec<Removal> = Vec::new();
    let ghost scripts = if !keep_scripts && scripts_present {
        seq![RemovalView::Scripts]
    } else {
        Seq::empty()
    };
    if !keep_scripts && scripts_present {
        out.push(Removal::Scripts);
    }
    assert(removal_views(out@) =~= scripts);
    if !keep_dist_info {
        let suffix = chars_of(".dist-info");
        let ghost all = entry_views(entries@);
        let mut i: usize = 0;
        assert(all.take(0) =~= Seq::empty());
        assert(removal_views(out@) =~= scripts + metadata(all.take(0)));
        while i < entries.len()
            invariant
                i <= entries.len(),
                suffix@ == ".dist-info"@,
                all == entry_views(entries@),
                removal_views(out@) == scripts + metadata(all.take(i as int)),
            decreases entries.len() - i,
        {
            let entry = &entries[i];
            let ghost before = out@;
            assert(all[i as int] == entry@);
            assert(all.take(i + 1).drop_last() =~= all.take(i as int));
            assert(all.take(i + 1).last() == entry@);
            if entry.is_dir {
                let name = chars_of(entry.name.as_str());
                if has_suffix(name.as_slice(), suffix.as_slice()) {
                    out.push(Removal::Metadata(entry.name.clone()));
                    assert(removal_views(out@) =~= removal_views(before).push(
                        RemovalView::Metadata(entry.name@),
                    ));
                }
            }
            i += 1;
            assert(removal_views(out@) =~= scripts + metadata(all.take(i as int)));
        }
        assert(all.take(i as int) =~= all);
    } else {
        assert(removal_views(out@) =~= scripts + Seq::empty());
    }
    out
}

/// The place of a directory to remove, relative to the tree.
pub open spec fn removal_path(removal: RemovalView) -> Seq<char> {
    match removal {
        RemovalView::Scripts => "Scripts"@,
        RemovalView::Metadata(name) => "Lib/site-packages/"@ + name,
    }
}

impl Removal {
    /// The place of the directory, relative to the tree.
    pub fn path(&self) -> (out: String)
        ensures
            out@ == removal_path(self@),
    {
        match self {
            Removal::Scripts => String::from_str("Scripts"),
            Removal::Metadata(name) => {
                let mut out = String::from_str("Lib/site-packages/");
                out.append(name.as_str());
                out
            },
        }
    }
}

/// With metadata kept, cleanup removes no metadata directory; with scripts
/// kept, it does not remove the scripts directory.
pub proof fn lemma_kept_is_not_removed(
    keep_scripts: bool,
    keep_dist_info: bool,
    scripts_present: bool,
    entries: Seq<(Seq<char>, bool)>,
)
    ensures
        keep_scripts || !scripts_present ==> !removals(
            keep_scripts,
            keep_dist_info,
            scripts_present,
            entries,
        ).contains(RemovalView::Scripts),
        !keep_scripts && scripts_present ==> removals(
            keep_scripts,
            keep_dist_info,
            scripts_present,
            entries,
        )[0] == RemovalView::Scripts,
        keep_scripts && keep_dist_info ==> removals(
            keep_scripts,
            keep_dist_info,
            scripts_present,
            entries,
        ).len() == 0,
{
    lemma_metadata_has_no_scripts(entries);
}

/// The metadata directories never include the scripts directory.
pub proof fn lemma_metadata_has_no_scripts(entries: Seq<(Seq<char>, bool)>)
    ensures
        !metadata(entries).contains(RemovalView::Scripts),
    decreases entries.len(),
{
    if entries.len() > 0 {
        lemma_metadata_has_no_scripts(entries.drop_last());
        if metadata(entries).contains(RemovalView::Scripts) {
            let k = choose|k: int|
                0 <= k < metadata(entries).len() && metadata(entries)[k] == RemovalView::Scripts;
            if k < metadata(entries.drop_last()).len() {
                assert(metadata(entries.drop_last())[k] == RemovalView::Scripts);
            }
        }
    }
}

} // verus!
