//! Filesystem events and how they relate to the expected file.

use vstd::prelude::*;
use crate::alphabet::OrderingAlphabet;
use crate::path_ops::{file_name_of, opt_view, path_file_name, paths_equal, same_path};
use crate::selector::{get_filename_with_largest_tiangan, listing_view, selected};

verus! {

/// What a filesystem notification reports.
#[derive(Clone, Copy, Debug, PartialEq, Eq, Structural)]
pub enum FsEventKind {
    Create,
    Modify,
    Remove,
    Access,
    Other,
}

/// One filesystem notification: its kind and the paths it is about.
pub struct FsEvent {
    pub kind: FsEventKind,
    pub paths: Vec<String>,
}

impl FsEvent {
    /// The event's paths as character sequences.
    pub open spec fn paths_view(&self) -> Seq<Seq<char>> {
        listing_view(self.paths@)
    }
}

/// The file name of the first path that has one.
pub open spec fn first_file_name(paths: Seq<Seq<char>>) -> Option<Seq<char>>
    decreases paths.len(),
{
    if paths.len() == 0 {
        None
    } else {
        match file_name_of(paths[0]) {
            Some(name) => Some(name),
            None => first_file_name(paths.drop_first()),
        }
    }
}

/// Whether the first file name among `paths` is exactly `name`.
pub open spec fn same_file(paths: Seq<Seq<char>>, name: Seq<char>) -> bool {
    first_file_name(paths) == Some(name)
}

/// Whether some path of `paths` equals the expected path.
pub open spec fn matches_path(paths: Seq<Seq<char>>, expected: Option<Seq<char>>) -> bool {
    match expected {
        Some(e) => exists|i: int| 0 <= i < paths.len() && same_path(#[trigger] paths[i], e),
        None => false,
    }
}

/// The file name (last segment) of the event's first path that has one.
pub fn get_filename_from_event(event: &FsEvent) -> (r: Option<String>)
    ensures
        opt_view(&r) == first_file_name(event.paths_view()),
{
    let ghost pv = event.paths_view();
    let mut i: usize = 0;
    assert(pv.skip(0) =~= pv);
    while i < event.paths.len()
        invariant
            pv == event.paths_view(),
            i <= pv.len(),
            first_file_name(pv) == first_file_name(pv.skip(i as int)),
        decreases pv.len() - i,
    {
        assert(pv.skip(i as int)[0] == event.paths@[i as int]@);
        assert(pv.skip(i as int).drop_first() =~= pv.skip(i + 1));
        match path_file_name(event.paths[i].as_str()) {
            Some(name) => {
                return Some(name);
            },
            None => {},
        }
        i = i + 1;
    }
    None
}

/// Whether the event's file name equals `expected_filename`, compared exactly.
pub fn is_same_file(event: &FsEvent, expected_filename: &str) -> (r: bool)
    ensures
        r == same_file(event.paths_view(), expected_filename@),
{
    match get_filename_from_event(event) {
        Some(name) => name == String::from_str(expected_filename),
        None => false,
    }
}

/// Whether one of the event's paths is the expected file of the listing.
pub fn is_expected_file(
    event: &FsEvent,
    entries: &Vec<String>,
    filename_prefix: &str,
    hidden_filename_prefix: &str,
    ext_name: &str,
    tiangan_order: &OrderingAlphabet,
    is_hidden_file: bool,
) -> (r: bool)
    ensures
        r == matches_path(
            event.paths_view(),
            selected(
                listing_view(entries@),
                filename_prefix@,
                hidden_filename_prefix@,
                ext_name@,
                tiangan_order@,
                is_hidden_file,
            ),
        ),
{
    let expected = get_filename_with_largest_tiangan(
        entries,
        filename_prefix,
        hidden_filename_prefix,
        ext_name,
        tiangan_order,
        is_hidden_file,
    );
    match expected {
        Some(e) => contains_path(&event.paths, &e),
        None => false,
    }
}

/// Whether some path of `paths` equals `expected`.
fn contains_path(paths: &Vec<String>, expected: &String) -> (r: bool)
    ensures
        r == matches_path(listing_view(paths@), Some(expected@)),
{
    let ghost pv = listing_view(paths@);
    let mut i: usize = 0;
    while i < paths.len()
        invariant
            pv == listing_view(paths@),
            i <= pv.len(),
            forall|j: int| 0 <= j < i ==> !same_path(#[trigger] pv[j], expected@),
        decreases pv.len() - i,
    {
        assert(pv[i as int] == paths@[i as int]@);
        if paths_equal(paths[i].as_str(), expected.as_str()) {
            assert(same_path(pv[i as int], expected@));
            return true;
        }
        i = i + 1;
    }
    false
}

/// Whether an event is about a file name depends on the last segment of its
/// first named path alone, whatever the directories before it; and names are
/// compared exactly, so two different names (say, differing in case) never
/// both match.
pub proof fn lemma_same_file_by_last_segment(
    paths1: Seq<Seq<char>>,
    paths2: Seq<Seq<char>>,
    name1: Seq<char>,
    name2: Seq<char>,
)
    ensures
        first_file_name(paths1) == first_file_name(paths2) ==> same_file(paths1, name1) == same_file(
            paths2,
            name1,
        ),
        name1 != name2 ==> !(same_file(paths1, name1) && same_file(paths1, name2)),
{
}

} // verus!
