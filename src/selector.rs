//! Picks the current version among the files of a directory listing.

use vstd::prelude::*;
use crate::alphabet::{
    OrderingAlphabet,
    get_tiangan_from_filename,
    opt_int,
    strip_prefix,
    suffix_rank,
};
use crate::path_ops::{
    extension_of,
    file_name_of,
    file_stem_of,
    opt_view,
    path_extension,
    path_file_name,
    path_file_stem,
    path_with_file_name,
    with_file_name_of,
};

verus! {

/// The listing as a sequence of paths.
pub open spec fn listing_view(entries: Seq<String>) -> Seq<Seq<char>> {
    entries.map_values(|e: String| e@)
}

/// The rank of a listed path, if it is a candidate: its extension is `ext` and
/// its stem is `prefix` followed by a symbol of the alphabet.
pub open spec fn entry_rank(
    entry: Seq<char>,
    prefix: Seq<char>,
    ext: Seq<char>,
    symbols: Seq<Seq<char>>,
) -> Option<int> {
    if extension_of(entry) == Some(ext) {
        match file_stem_of(entry) {
            Some(stem) => suffix_rank(stem, prefix, symbols),
            None => None,
        }
    } else {
        None
    }
}

/// Whether no listed path is a candidate.
pub open spec fn no_candidate(
    entries: Seq<Seq<char>>,
    prefix: Seq<char>,
    ext: Seq<char>,
    symbols: Seq<Seq<char>>,
) -> bool {
    forall|j: int| 0 <= j < entries.len() ==> entry_rank(#[trigger] entries[j], prefix, ext, symbols) is None
}

/// Whether `k` is the first candidate in listing order among those of maximum rank.
pub open spec fn is_first_max(
    entries: Seq<Seq<char>>,
    k: int,
    prefix: Seq<char>,
    ext: Seq<char>,
    symbols: Seq<Seq<char>>,
) -> bool {
    &&& 0 <= k < entries.len()
    &&& entry_rank(entries[k], prefix, ext, symbols) is Some
    &&& forall|j: int|
        0 <= j < entries.len() && (entry_rank(#[trigger] entries[j], prefix, ext, symbols) is Some)
            ==> entry_rank(entries[j], prefix, ext, symbols)->0 <= entry_rank(
            entries[k],
            prefix,
            ext,
            symbols,
        )->0
    &&& forall|j: int|
        0 <= j < k && (entry_rank(#[trigger] entries[j], prefix, ext, symbols) is Some)
            ==> entry_rank(entries[j], prefix, ext, symbols)->0 < entry_rank(
            entries[k],
            prefix,
            ext,
            symbols,
        )->0
}

/// The hidden lock file that goes with a visible path: its file name's
/// `prefix` replaced by `hidden_prefix`; none when the name lacks `prefix`.
pub open spec fn hidden_path(path: Seq<char>, prefix: Seq<char>, hidden_prefix: Seq<char>) -> Option<
    Seq<char>,
> {
    match file_name_of(path) {
        Some(name) => if prefix.is_prefix_of(name) {
            Some(with_file_name_of(path, hidden_prefix + name.skip(prefix.len() as int)))
        } else {
            None
        },
        None => None,
    }
}

/// The expected file: the first candidate of maximum rank, rewritten to its
/// hidden name when `is_hidden_file` holds.
pub open spec fn selected(
    entries: Seq<Seq<char>>,
    prefix: Seq<char>,
    hidden_prefix: Seq<char>,
    ext: Seq<char>,
    symbols: Seq<Seq<char>>,
    is_hidden_file: bool,
) -> Option<Seq<char>> {
    if exists|k: int| is_first_max(entries, k, prefix, ext, symbols) {
        let k = choose|k: int| is_first_max(entries, k, prefix, ext, symbols);
        if is_hidden_file {
            hidden_path(entries[k], prefix, hidden_prefix)
        } else {
            Some(entries[k])
        }
    } else {
        None
    }
}

/// There is at most one first candidate of maximum rank.
pub proof fn lemma_first_max_unique(
    entries: Seq<Seq<char>>,
    k1: int,
    k2: int,
    prefix: Seq<char>,
    ext: Seq<char>,
    symbols: Seq<Seq<char>>,
)
    requires
        is_first_max(entries, k1, prefix, ext, symbols),
        is_first_max(entries, k2, prefix, ext, symbols),
    ensures
        k1 == k2,
{
    if k1 < k2 {
        assert(entry_rank(entries[k1], prefix, ext, symbols) is Some);
    } else if k2 < k1 {
        assert(entry_rank(entries[k2], prefix, ext, symbols) is Some);
    }
}

/// The rank of a listed path, if it is a candidate.
pub fn candidate_rank(
    entry: &String,
    filename_prefix: &str,
    ext_name: &String,
    tiangan_order: &OrderingAlphabet,
) -> (r: Option<usize>)
    ensures
        opt_int(r) == entry_rank(entry@, filename_prefix@, ext_name@, tiangan_order@),
{
    match path_extension(entry.as_str()) {
        Some(ext) => {
            if ext == *ext_name {
                match path_file_stem(entry.as_str()) {
                    Some(stem) => get_tiangan_from_filename(
                        stem.as_str(),
                        filename_prefix,
                        tiangan_order,
                    ),
                    None => None,
                }
            } else {
                None
            }
        },
        None => None,
    }
}

/// The hidden lock file path that goes with a visible path.
pub fn hidden_file_path(path: &String, filename_prefix: &str, hidden_filename_prefix: &str) -> (r:
    Option<String>)
    ensures
        opt_view(&r) == hidden_path(path@, filename_prefix@, hidden_filename_prefix@),
{
    match path_file_name(path.as_str()) {
        Some(name) => match strip_prefix(name.as_str(), filename_prefix) {
            Some(rest) => {
                let mut new_name = String::from_str(hidden_filename_prefix);
                new_name.append(rest.as_str());
                Some(path_with_file_name(path.as_str(), new_name.as_str()))
            },
            None => None,
        },
        None => None,
    }
}

/// The expected file of a directory listing: among the candidates, the first of
/// maximum rank, as a visible path or rewritten to its hidden lock file name.
pub fn get_filename_with_largest_tiangan(
    entries: &Vec<String>,
    filename_prefix: &str,
    hidden_filename_prefix: &str,
    ext_name: &str,
    tiangan_order: &OrderingAlphabet,
    is_hidden_file: bool,
) -> (r: Option<String>)
    ensures
        opt_view(&r) == selected(
            listing_view(entries@),
            filename_prefix@,
            hidden_filename_prefix@,
            ext_name@,
            tiangan_order@,
            is_hidden_file,
        ),
{
    let ghost ev = listing_view(entries@);
    let ghost (pre, ext_v, syms) = (filename_prefix@, ext_name@, tiangan_order@);
    let ext = String::from_str(ext_name);
    let mut best: Option<(usize, usize)> = None;
    let mut i: usize = 0;
    while i < entries.len()
        invariant
            ev == listing_view(entries@),
            pre == filename_prefix@,
            ext_v == ext@,
            syms == tiangan_order@,
            i <= entries@.len(),
            best is None ==> forall|j: int|
                0 <= j < i ==> entry_rank(#[trigger] ev[j], pre, ext_v, syms) is None,
            best matches Some((r, k)) ==> {
                &&& k < i
                &&& entry_rank(ev[k as int], pre, ext_v, syms) == Some(r as int)
                &&& forall|j: int|
                    0 <= j < i && (entry_rank(#[trigger] ev[j], pre, ext_v, syms) is Some)
                        ==> entry_rank(ev[j], pre, ext_v, syms)->0 <= r
                &&& forall|j: int|
                    0 <= j < k && (entry_rank(#[trigger] ev[j], pre, ext_v, syms) is Some)
                        ==> entry_rank(ev[j], pre, ext_v, syms)->0 < r
            },
        decreases entries@.len() - i,
    {
        let rank = candidate_rank(&entries[i], filename_prefix, &ext, tiangan_order);
        assert(ev[i as int] == entries@[i as int]@);
        match rank {
            Some(r) => {
                match best {
                    Some((b, _)) => {
                        if r > b {
                            best = Some((r, i));
                        }
                    },
                    None => {
                        best = Some((r, i));
                    },
                }
            },
            None => {},
        }
        i = i + 1;
    }
    match best {
        Some((_, k)) => {
            proof {
                assert(is_first_max(ev, k as int, pre, ext_v, syms));
                let c = choose|c: int| is_first_max(ev, c, pre, ext_v, syms);
                lemma_first_max_unique(ev, k as int, c, pre, ext_v, syms);
            }
            if is_hidden_file {
                hidden_file_path(&entries[k], filename_prefix, hidden_filename_prefix)
            } else {
                Some(entries[k].clone())
            }
        },
        None => {
            proof {
                assert forall|k: int| !is_first_max(ev, k, pre, ext_v, syms) by {
                    if 0 <= k < ev.len() {
                        assert(entry_rank(ev[k], pre, ext_v, syms) is None);
                    }
                }
            }
            None
        },
    }
}

/// When one candidate outranks every other candidate, the expected file is
/// that candidate: as it is when visible, and with its prefix rewritten to the
/// hidden prefix when hidden.
pub proof fn lemma_selects_maximum(
    entries: Seq<Seq<char>>,
    k: int,
    prefix: Seq<char>,
    hidden_prefix: Seq<char>,
    ext: Seq<char>,
    symbols: Seq<Seq<char>>,
)
    requires
        0 <= k < entries.len(),
        entry_rank(entries[k], prefix, ext, symbols) is Some,
        forall|j: int|
            0 <= j < entries.len() && j != k && (entry_rank(#[trigger] entries[j], prefix, ext, symbols) is Some)
                ==> entry_rank(entries[j], prefix, ext, symbols)->0 < entry_rank(
                entries[k],
                prefix,
                ext,
                symbols,
            )->0,
    ensures
        selected(entries, prefix, hidden_prefix, ext, symbols, false) == Some(entries[k]),
        selected(entries, prefix, hidden_prefix, ext, symbols, true) == hidden_path(
            entries[k],
            prefix,
            hidden_prefix,
        ),
{
    assert(is_first_max(entries, k, prefix, ext, symbols));
    let c = choose|c: int| is_first_max(entries, c, prefix, ext, symbols);
    lemma_first_max_unique(entries, k, c, prefix, ext, symbols);
}

/// When no listed file is a candidate, there is no expected file.
pub proof fn lemma_no_candidate_selects_nothing(
    entries: Seq<Seq<char>>,
    prefix: Seq<char>,
    hidden_prefix: Seq<char>,
    ext: Seq<char>,
    symbols: Seq<Seq<char>>,
    is_hidden_file: bool,
)
    requires
        no_candidate(entries, prefix, ext, symbols),
    ensures
        selected(entries, prefix, hidden_prefix, ext, symbols, is_hidden_file) is None,
{
    assert forall|k: int| !is_first_max(entries, k, prefix, ext, symbols) by {
        if 0 <= k < entries.len() {
            assert(entry_rank(entries[k], prefix, ext, symbols) is None);
        }
    }
}

} // verus!
