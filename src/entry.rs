//! The entries that a listing shows, and the hidden-file filter.
use vstd::prelude::*;

verus! {

/// One filesystem object found by expanding a pattern, with the metadata the
/// listing shows.
pub struct Entry {
    /// The path as the pattern expansion produced it.
    pub path: String,
    /// The last component of the path.
    pub name: String,
    /// Whether the path is a directory.
    pub is_dir: bool,
    /// The permission bits of the mode.
    pub mode: u32,
    /// Seconds elapsed since the last modification.
    pub age_secs: u64,
    /// The numeric identifier of the owning user.
    pub uid: u32,
    /// The byte length of a file, or the summed length of everything under a directory.
    pub size: u64,
    /// What `git status -s <name>` printed for the entry; empty where nothing was printed.
    pub vcs_output: String,
}

/// A base name that starts with `.` is hidden.
pub open spec fn hidden(name: Seq<char>) -> bool {
    name.len() > 0 && name[0] == '.'
}

/// Whether the listing shows `e`.
pub open spec fn shown(e: Entry, show_hidden: bool) -> bool {
    show_hidden || !hidden(e.name@)
}

/// The entries that the listing shows, in their order.
pub open spec fn visible(entries: Seq<Entry>, show_hidden: bool) -> Seq<Entry>
    decreases entries.len(),
{
    if entries.len() == 0 {
        Seq::empty()
    } else if shown(entries.last(), show_hidden) {
        visible(entries.drop_last(), show_hidden).push(entries.last())
    } else {
        visible(entries.drop_last(), show_hidden)
    }
}

/// Whether the entry's base name starts with `.`.
pub fn is_hidden_file(entry: &Entry) -> (r: bool)
    ensures
        r == hidden(entry.name@),
{
    let name = entry.name.as_str();
    name.unicode_len() > 0 && name.get_char(0) == '.'
}

/// With hidden entries left out, no entry that the listing shows has a base
/// name that starts with `.`; with them shown, every entry is shown.
pub proof fn lemma_hidden_never_listed(entries: Seq<Entry>, show_hidden: bool)
    ensures
        !show_hidden ==> forall|i: int|
            0 <= i < visible(entries, show_hidden).len() ==> !hidden(
                #[trigger] visible(entries, show_hidden)[i].name@,
            ),
        show_hidden ==> visible(entries, show_hidden) == entries,
    decreases entries.len(),
{
    if entries.len() > 0 {
        lemma_hidden_never_listed(entries.drop_last(), show_hidden);
        let v = visible(entries.drop_last(), show_hidden);
        if shown(entries.last(), show_hidden) {
            assert(visible(entries, show_hidden) == v.push(entries.last()));
            assert forall|i: int| 0 <= i < v.len() implies #[trigger] v.push(entries.last())[i]
                == v[i] by {}
        }
        if show_hidden {
            assert(entries.drop_last().push(entries.last()) =~= entries);
        }
    }
}

} // verus!
