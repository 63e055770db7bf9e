//! From the entries of a directory to the records of a listing.

use crate::race::files::{race_id_of, race_id_of_file};
use crate::race::protocol::{
    Document, DocumentView, Entry, EntryView, FileDocument, FileDocumentView,
};
use crate::race::record::{Race, RaceView};
use vstd::prelude::*;

verus! {

/// Whether a directory entry is the file of a record: a regular file that
/// is named after an identifier.
pub open spec fn is_record_file(entry: EntryView) -> bool {
    entry.is_file && race_id_of(entry.name) is Some
}

/// The names of the record files among the entries of a directory, in the
/// order of the entries.
pub open spec fn record_files(entries: Seq<EntryView>) -> Seq<Seq<char>> {
    entries.filter(|entry: EntryView| is_record_file(entry)).map_values(
        |entry: EntryView| entry.name,
    )
}

/// The record that a file contributes to a listing: the record it holds,
/// under the identifier its name gives. A file that holds no record, or
/// whose name gives no identifier, contributes nothing.
pub open spec fn listed_race(read: FileDocumentView, archived: bool) -> Option<RaceView> {
    match (read.document, race_id_of(read.file)) {
        (DocumentView::Race(race), Some(race_id)) => Some(race.located(race_id, archived)),
        _ => None,
    }
}

/// The records that the files of a directory contribute to a listing, in
/// the order of the files.
pub open spec fn found_races(read: Seq<FileDocumentView>, archived: bool) -> Seq<RaceView> {
    read.filter_map(|one: FileDocumentView| listed_race(one, archived))
}

/// Picks the record files out of the entries of a directory.
pub fn select_record_files(entries: &Vec<Entry>) -> (files: Vec<String>)
    ensures
        files.deep_view() == record_files(entries.deep_view()),
{
    let ghost all = entries.deep_view();
    let ghost pred = |entry: EntryView| is_record_file(entry);
    let ghost name = |entry: EntryView| entry.name;
    let mut files: Vec<String> = Vec::new();
    proof {
        reveal(Seq::filter);
        assert(all.take(0) =~= Seq::<EntryView>::empty());
        assert(files.deep_view() =~= all.take(0).filter(pred).map_values(name));
    }
    let mut i: usize = 0;
    while i < entries.len()
        invariant
            i <= entries.len(),
            all == entries.deep_view(),
            pred == |entry: EntryView| is_record_file(entry),
            name == |entry: EntryView| entry.name,
            files.deep_view() == all.take(i as int).filter(pred).map_values(name),
        decreases entries.len() - i,
    {
        let entry = &entries[i];
        let ghost before = files.deep_view();
        proof {
            reveal(Seq::filter);
            assert(all.take(i + 1).drop_last() =~= all.take(i as int));
            assert(all.take(i + 1).last() == entry.deep_view());
        }
        let mut keep = false;
        if entry.is_file {
            let race_id = race_id_of_file(entry.name.as_str());
            keep = race_id.is_some();
        }
        if keep {
            files.push(entry.name.clone());
            proof {
                assert(files.deep_view() =~= before.push(entry.name@));
                assert(all.take(i + 1).filter(pred).map_values(name) =~= all.take(
                    i as int,
                ).filter(pred).map_values(name).push(entry.name@));
            }
        }
        i = i + 1;
    }
    proof {
        assert(all.take(entries.len() as int) =~= all);
    }
    files
}

/// Turns what was read from the files of a directory into the records of
/// a listing, each stamped with the identifier that its file name gives and
/// with the directory's flag. Files that hold no record are passed over.
pub fn collect_races(read: Vec<FileDocument>, archived: bool) -> (races: Vec<Race>)
    ensures
        races.deep_view() == found_races(read.deep_view(), archived),
{
    let ghost all = read.deep_view();
    let ghost pick = |one: FileDocumentView| listed_race(one, archived);
    let mut rest = read;
    let mut races: Vec<Race> = Vec::new();
    // The vector is taken apart from its end, so the records come out in
    // reverse and are turned round afterwards.
    let mut reversed: Vec<Race> = Vec::new();
    proof {
        assert(all.skip(all.len() as int) =~= Seq::<FileDocumentView>::empty());
        assert(reversed.deep_view().reverse() =~= all.skip(all.len() as int).filter_map(pick));
    }
    while rest.len() > 0
        invariant
            rest.len() <= all.len(),
            pick == |one: FileDocumentView| listed_race(one, archived),
            rest.deep_view() == all.take(rest.len() as int),
            reversed.deep_view().reverse() == all.skip(rest.len() as int).filter_map(pick),
        decreases rest.len(),
    {
        let ghost before_rest = rest.deep_view();
        let ghost remaining = rest.len();
        let ghost before = reversed.deep_view();
        let one = rest.pop().unwrap();
        proof {
            assert(one.deep_view() == before_rest[remaining - 1]);
            assert(rest.deep_view() =~= all.take(rest.len() as int));
            lemma_filter_map_front(all.skip(remaining - 1), pick);
            assert(all.skip(remaining - 1).drop_first() =~= all.skip(remaining as int));
        }
        let FileDocument { file, document } = one;
        match document {
            Document::Race(race) => {
                match race_id_of_file(file.as_str()) {
                    Some(race_id) => {
                        let located = race.locate(race_id, archived);
                        reversed.push(located);
                        proof {
                            assert(reversed.deep_view() =~= before.push(located@));
                            assert(before.push(located@).reverse() =~= seq![located@]
                                + before.reverse());
                        }
                    },
                    None => {},
                }
            },
            _ => {},
        }
    }
    proof {
        assert(all.skip(0) =~= all);
    }
    while reversed.len() > 0
        invariant
            races.deep_view() + reversed.deep_view().reverse() == found_races(all, archived),
        decreases reversed.len(),
    {
        let ghost before = races.deep_view();
        let ghost before_reversed = reversed.deep_view();
        let race = reversed.pop().unwrap();
        races.push(race);
        proof {
            assert(race.deep_view() == before_reversed.last());
            assert(reversed.deep_view() =~= before_reversed.drop_last());
            assert(races.deep_view() =~= before.push(race@));
            assert(before_reversed.reverse() =~= seq![race@]
                + before_reversed.drop_last().reverse());
            assert(before.push(race@) + before_reversed.drop_last().reverse() =~= before + (
            seq![race@] + before_reversed.drop_last().reverse()));
        }
    }
    proof {
        assert(reversed.deep_view().reverse() =~= Seq::<RaceView>::empty());
        assert(races.deep_view() + Seq::<RaceView>::empty() =~= races.deep_view());
    }
    races
}

/// Picking from a sequence picks from its first element, then from the rest.
proof fn lemma_filter_map_front<A, B>(s: Seq<A>, f: spec_fn(A) -> Option<B>)
    requires
        s.len() > 0,
    ensures
        s.filter_map(f) == (match f(s[0]) {
            Some(b) => seq![b] + s.drop_first().filter_map(f),
            None => s.drop_first().filter_map(f),
        }),
    decreases s.len(),
{
    if s.len() == 1 {
        assert(s.drop_last() =~= Seq::<A>::empty());
        assert(s.drop_first() =~= Seq::<A>::empty());
        assert(s.last() == s[0]);
        assert(Seq::<A>::empty().filter_map(f) =~= Seq::<B>::empty());
        match f(s[0]) {
            Some(b) => {
                assert(s.filter_map(f) =~= seq![b] + s.drop_first().filter_map(f));
            },
            None => {},
        }
    } else {
        let front = s.drop_last();
        lemma_filter_map_front(front, f);
        assert(front[0] == s[0]);
        assert(front.drop_first() =~= s.drop_first().drop_last());
        assert(s.drop_first().last() == s.last());
        let inner = s.drop_first().drop_last().filter_map(f);
        match f(s[0]) {
            Some(b) => {
                match f(s.last()) {
                    Some(c) => {
                        assert((seq![b] + inner) + seq![c] =~= seq![b] + (inner + seq![c]));
                    },
                    None => {},
                }
            },
            None => {},
        }
    }
}

} // verus!
