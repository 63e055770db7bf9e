//! How records map to files: one file per record, named after its identifier.

use crate::text::copy_range;
use vstd::prelude::*;
use vstd::string::*;

verus! {

/// One of the two directories of the store.
#[derive(Debug, Clone, Copy, PartialEq, Eq, Structural)]
pub enum Directory {
    /// Records in use.
    Active,
    /// Records that were retired.
    Archived,
}

impl Directory {
    /// The flag that records read from this directory carry.
    pub open spec fn archived_flag(self) -> bool {
        self == Directory::Archived
    }

    /// Whether records read from this directory count as archived.
    pub fn is_archived(&self) -> (archived: bool)
        ensures
            archived == self.archived_flag(),
    {
        match self {
            Directory::Active => false,
            Directory::Archived => true,
        }
    }
}

/// The ending of every record file.
pub open spec fn extension() -> Seq<char> {
    seq!['.', 'y', 'a', 'm', 'l']
}

/// The name of the file that holds the record `race_id`.
pub open spec fn file_name_of(race_id: Seq<char>) -> Seq<char> {
    race_id + extension()
}

/// The identifier of the record that a file of this name holds: the name
/// without its ending. A name that does not end in the record ending, or
/// that is nothing but the ending, names no record.
pub open spec fn race_id_of(file: Seq<char>) -> Option<Seq<char>> {
    let stem = file.len() - extension().len();
    if stem > 0 && file.subrange(stem, file.len() as int) == extension() {
        Some(file.subrange(0, stem))
    } else {
        None
    }
}

/// A file is a record file exactly if it is named after an identifier that
/// is not empty, and that identifier is the one read back from its name.
pub proof fn race_id_of_inverts_file_name_of(file: Seq<char>, race_id: Seq<char>)
    ensures
        race_id_of(file) == Some(race_id) <==> (race_id.len() > 0 && file == file_name_of(
            race_id,
        )),
{
    let stem = file.len() - extension().len();
    if race_id_of(file) == Some(race_id) {
        assert(file =~= file.subrange(0, stem) + file.subrange(stem, file.len() as int));
    }
    if race_id.len() > 0 && file == file_name_of(race_id) {
        assert(file.subrange(stem, file.len() as int) =~= extension());
        assert(file.subrange(0, stem) =~= race_id);
    }
}

/// Two identifiers share a file only if they are the same identifier.
pub proof fn file_name_of_is_injective(a: Seq<char>, b: Seq<char>)
    requires
        file_name_of(a) == file_name_of(b),
    ensures
        a == b,
{
    assert(file_name_of(a).subrange(0, a.len() as int) =~= a);
    assert(file_name_of(b).subrange(0, b.len() as int) =~= b);
    assert(file_name_of(a).len() == a.len() + 5);
    assert(file_name_of(b).len() == b.len() + 5);
}

/// The file name under which the record `race_id` is kept.
pub fn file_name(race_id: &str) -> (file: String)
    ensures
        file@ == file_name_of(race_id@),
{
    let mut file = String::from_str(race_id);
    file.append(".yaml");
    proof {
        reveal_strlit(".yaml");
        assert(".yaml"@ =~= extension());
    }
    file
}

/// Reads the identifier of a record off the name of its file.
pub fn race_id_of_file(file: &str) -> (race_id: Option<String>)
    ensures
        race_id.deep_view() == race_id_of(file@),
{
    let length = file.unicode_len();
    if length <= 5 {
        return None;
    }
    let stem = length - 5;
    let ending = copy_range(file, stem, length);
    proof {
        reveal_strlit(".yaml");
        assert(".yaml"@ =~= extension());
    }
    let expected = String::from_str(".yaml");
    if ending == expected {
        Some(copy_range(file, 0, stem))
    } else {
        None
    }
}

} // verus!
