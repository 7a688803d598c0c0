//! The file of identifiers that were seen in the last run: where it lies and
//! what it holds.
//!
//! The file holds the identifiers separated by commas. An empty file holds no
//! identifier.

use crate::text::{join, join_with, split, split_on, views};
use vstd::prelude::*;
use vstd::string::*;

verus! {

/// The name of the file of seen identifiers in the user's home directory.
pub fn persistence_file_name() -> (name: &'static str)
    ensures
        name@ == ".gh-notifier-read-notifications"@,
{
    ".gh-notifier-read-notifications"
}

/// The path of the file `filename` in the directory `home`.
pub open spec fn persistence_file_path(home: Seq<char>, filename: Seq<char>) -> Seq<char> {
    home + "/"@ + filename
}

/// Builds the path of the file `filename` in the home directory `home`.
pub fn get_persistence_file_path(home: &str, filename: &str) -> (path: String)
    ensures
        path@ == persistence_file_path(home@, filename@),
{
    let mut path = String::from_str(home);
    path.append("/");
    path.append(filename);
    path
}

/// The contents to go on from after an attempt to read the file: what was
/// read, or nothing where the file could not be read.
pub fn get_local_ids(contents: Option<String>) -> (ids: String)
    ensures
        ids@ == match contents {
            Some(text) => text@,
            None => Seq::<char>::empty(),
        },
{
    match contents {
        Some(text) => text,
        None => String::new(),
    }
}

/// The identifiers that a file with the contents `read_ids` holds, in order.
pub open spec fn seen_ids(read_ids: Seq<char>) -> Seq<Seq<char>> {
    if read_ids.len() == 0 {
        Seq::<Seq<char>>::empty()
    } else {
        split(read_ids, ',')
    }
}

/// The contents of a file that holds `ids`.
pub open spec fn saved_ids(ids: Seq<Seq<char>>) -> Seq<char> {
    join(ids, seq![','])
}

/// Reads the identifiers out of the contents of the file.
pub fn parse_local_ids(read_ids: &str) -> (ids: Vec<String>)
    ensures
        views(ids@) == seen_ids(read_ids@),
{
    if read_ids.is_empty() {
        let ids: Vec<String> = Vec::new();
        assert(views(ids@) =~= Seq::<Seq<char>>::empty());
        ids
    } else {
        split_on(read_ids, ',')
    }
}

/// Writes out the contents of a file that holds `ids`; for no identifier, the
/// empty contents.
pub fn save_local_ids(ids: Vec<String>) -> (contents: String)
    ensures
        contents@ == saved_ids(views(ids@)),
{
    proof {
        reveal_strlit(",");
        assert(","@ =~= seq![',']);
    }
    join_with(&ids, ",")
}

/// What was saved is read back unchanged, as long as no identifier holds a
/// comma and the list is not the single empty identifier, which is written
/// as the empty file.
pub proof fn lemma_saved_ids_read_back(ids: Seq<Seq<char>>)
    requires
        forall|i: int| 0 <= i < ids.len() ==> !(#[trigger] ids[i]).contains(','),
        !(ids.len() == 1 && ids[0].len() == 0),
    ensures
        seen_ids(saved_ids(ids)) == ids,
{
    if ids.len() == 0 {
        assert(ids =~= Seq::<Seq<char>>::empty());
    } else {
        crate::text::lemma_split_join(ids, ',');
    }
}

/// Reading loses nothing: no identifier read from a file holds a comma, and
/// saving what was read gives the contents of the file back.
pub proof fn lemma_read_ids_save_back(read_ids: Seq<char>)
    ensures
        forall|i: int|
            0 <= i < seen_ids(read_ids).len() ==> !(#[trigger] seen_ids(read_ids)[i]).contains(
                ',',
            ),
        saved_ids(seen_ids(read_ids)) == read_ids,
{
    crate::text::lemma_split_pieces_free(read_ids, ',');
    crate::text::lemma_join_split(read_ids, ',');
    if read_ids.len() == 0 {
        assert(read_ids =~= Seq::<char>::empty());
    }
}

} // verus!
