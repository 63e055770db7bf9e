//! A listing at work on the ideal disk: which records it shows.

use crate::race::files::{file_name_of, race_id_of, race_id_of_inverts_file_name_of, Directory};
use crate::race::listing::{found_races, is_record_file, listed_race, record_files};
use crate::race::model::{enumerates, execute, scanned, Files, Run};
use crate::race::ordering::{
    latest_first, listing_holds_what_was_found, listing_of, listing_of_is_listing, slot,
    slot_is_within,
};
use crate::race::protocol::{DocumentView, EntryView, FileDocumentView, OutcomeView, StepView};
use crate::race::record::RaceView;
use crate::race::service::{list_step, listed_directory};
use vstd::prelude::*;

verus! {

/// Whether a listing of the directory shows the record: the directory
/// holds a file named after the record's identifier, the identifier is not
/// empty, and the record is what the file holds, under that identifier and
/// with the flag of the directory.
pub open spec fn shows(files: Files, directory: Directory, race: RaceView) -> bool {
    &&& race.id matches Some(race_id)
    &&& race_id.len() > 0
    &&& files.holds(directory, race_id)
    &&& files.document(directory, race_id) matches DocumentView::Race(stored)
    &&& race == stored.located(race_id, directory.archived_flag())
}

/// What the files of a directory read as, in the order of their names.
pub open spec fn read_all(
    files: Map<Seq<char>, DocumentView>,
    names: Seq<Seq<char>>,
) -> Seq<FileDocumentView> {
    names.map_values(|file: Seq<char>| FileDocumentView { file, document: files[file] })
}

/// The records that a listing of the directory gives, on a disk that
/// reports the entries of the directory in the order `entries`.
pub open spec fn listed(files: Files, archived: bool, entries: Seq<EntryView>) -> Seq<RaceView> {
    listing_of(
        found_races(read_all(files.of(listed_directory(archived)), record_files(entries)), archived),
    )
}

/// Each record file among the entries is the name of an entry that is a
/// record file.
proof fn record_file_comes_from_an_entry(entries: Seq<EntryView>, k: int) -> (i: int)
    requires
        0 <= k < record_files(entries).len(),
    ensures
        0 <= i < entries.len(),
        is_record_file(entries[i]),
        entries[i].name == record_files(entries)[k],
{
    let pred = |entry: EntryView| is_record_file(entry);
    let kept = entries.filter(pred);
    entries.lemma_filter_pred(pred, k);
    assert(pred(kept[k]));
    assert(kept.contains(kept[k]));
    entries.lemma_filter_contains_rev(pred, kept[k]);
    choose|i: int| 0 <= i < entries.len() && entries[i] == kept[k]
}

/// Each entry that is a record file is among the record files.
proof fn record_entry_is_a_record_file(entries: Seq<EntryView>, i: int) -> (k: int)
    requires
        0 <= i < entries.len(),
        is_record_file(entries[i]),
    ensures
        0 <= k < record_files(entries).len(),
        record_files(entries)[k] == entries[i].name,
{
    let pred = |entry: EntryView| is_record_file(entry);
    let kept = entries.filter(pred);
    assert(pred(entries[i]));
    entries.lemma_filter_contains(pred, i);
    assert(kept.contains(entries[i]));
    choose|k: int| 0 <= k < kept.len() && kept[k] == entries[i]
}

/// Each record that was found is the contribution of one of the files.
proof fn found_race_comes_from_a_file(
    read: Seq<FileDocumentView>,
    archived: bool,
    race: RaceView,
) -> (k: int)
    requires
        found_races(read, archived).contains(race),
    ensures
        0 <= k < read.len(),
        listed_race(read[k], archived) == Some(race),
    decreases read.len(),
{
    let pick = |one: FileDocumentView| listed_race(one, archived);
    let found = found_races(read, archived);
    let at = choose|at: int| 0 <= at < found.len() && found[at] == race;
    if read.len() == 0 {
        0
    } else {
        let front = read.drop_last();
        let before = front.filter_map(pick);
        if at < before.len() {
            assert(before[at] == race);
            assert(found_races(front, archived).contains(race));
            let k = found_race_comes_from_a_file(front, archived, race);
            assert(read[k] == front[k]);
            k
        } else {
            read.len() - 1
        }
    }
}

/// What a file contributes is among the records that were found.
proof fn file_contributes_a_found_race(
    read: Seq<FileDocumentView>,
    archived: bool,
    race: RaceView,
    k: int,
)
    requires
        0 <= k < read.len(),
        listed_race(read[k], archived) == Some(race),
    ensures
        found_races(read, archived).contains(race),
    decreases read.len(),
{
    let pick = |one: FileDocumentView| listed_race(one, archived);
    let found = found_races(read, archived);
    let front = read.drop_last();
    let before = front.filter_map(pick);
    if k < front.len() {
        assert(front[k] == read[k]);
        file_contributes_a_found_race(front, archived, race, k);
        assert(found_races(front, archived).contains(race));
        let at = choose|at: int| 0 <= at < before.len() && before[at] == race;
        assert(found[at] == race);
    } else {
        assert(read.last() == read[k]);
        assert(found == before + seq![race]);
        assert(found[before.len() as int] == race);
    }
}

/// No two of the records have the same identifier.
pub open spec fn distinct_ids(races: Seq<RaceView>) -> bool {
    forall|i: int, j: int|
        0 <= i < j < races.len() ==> (#[trigger] races[i]).id != (#[trigger] races[j]).id
}

/// No two of the files have the same name.
pub open spec fn distinct_files(read: Seq<FileDocumentView>) -> bool {
    forall|i: int, j: int|
        0 <= i < j < read.len() ==> (#[trigger] read[i]).file != (#[trigger] read[j]).file
}

/// Entries of different names give record files of different names.
proof fn record_files_are_distinct(entries: Seq<EntryView>)
    requires
        forall|i: int, j: int|
            0 <= i < j < entries.len() ==> (#[trigger] entries[i]).name != (
            #[trigger] entries[j]).name,
    ensures
        forall|i: int, j: int|
            0 <= i < j < record_files(entries).len() ==> #[trigger] record_files(entries)[i]
                != #[trigger] record_files(entries)[j],
    decreases entries.len(),
{
    reveal(Seq::filter);
    let pred = |entry: EntryView| is_record_file(entry);
    if entries.len() > 0 {
        let front = entries.drop_last();
        assert forall|i: int, j: int| 0 <= i < j < front.len() implies (#[trigger] front[i]).name
            != (#[trigger] front[j]).name by {
            assert(front[i] == entries[i]);
            assert(front[j] == entries[j]);
        }
        record_files_are_distinct(front);
        if pred(entries.last()) {
            let names = record_files(entries);
            assert(names =~= record_files(front).push(entries.last().name));
            assert forall|i: int, j: int| 0 <= i < j < names.len() implies #[trigger] names[i]
                != #[trigger] names[j] by {
                if j == names.len() - 1 {
                    let at = record_file_comes_from_an_entry(front, i);
                    assert(front[at] == entries[at]);
                    assert(entries[at].name != entries[entries.len() - 1].name);
                } else {
                    assert(names[i] == record_files(front)[i]);
                    assert(names[j] == record_files(front)[j]);
                }
            }
        } else {
            assert(record_files(entries) =~= record_files(front));
        }
    }
}

/// Files of different names contribute records of different identifiers.
proof fn found_races_have_distinct_ids(read: Seq<FileDocumentView>, archived: bool)
    requires
        distinct_files(read),
    ensures
        distinct_ids(found_races(read, archived)),
    decreases read.len(),
{
    let found = found_races(read, archived);
    if read.len() > 0 {
        let front = read.drop_last();
        let before = found_races(front, archived);
        assert forall|i: int, j: int| 0 <= i < j < front.len() implies (#[trigger] front[i]).file
            != (#[trigger] front[j]).file by {
            assert(front[i] == read[i]);
            assert(front[j] == read[j]);
        }
        found_races_have_distinct_ids(front, archived);
        match listed_race(read.last(), archived) {
            Some(race) => {
                assert(found == before + seq![race]);
                assert forall|i: int, j: int| 0 <= i < j < found.len() implies (
                #[trigger] found[i]).id != (#[trigger] found[j]).id by {
                    if j == found.len() - 1 {
                        assert(found[j] == race);
                        assert(found[i] == before[i]);
                        assert(before.contains(before[i]));
                        let k = found_race_comes_from_a_file(front, archived, before[i]);
                        assert(front[k] == read[k]);
                        assert(read[k].file != read[read.len() - 1].file);
                        let one = race_id_of(read[k].file)->0;
                        let other = race_id_of(read.last().file)->0;
                        race_id_of_inverts_file_name_of(read[k].file, one);
                        race_id_of_inverts_file_name_of(read.last().file, other);
                    } else {
                        assert(found[i] == before[i]);
                        assert(found[j] == before[j]);
                    }
                }
            },
            None => {
                assert(found == before);
            },
        }
    }
}

/// Records of different identifiers stay so when they are put in listing
/// order.
proof fn listing_keeps_ids_distinct(found: Seq<RaceView>)
    requires
        distinct_ids(found),
    ensures
        distinct_ids(listing_of(found)),
    decreases found.len(),
{
    if found.len() > 0 {
        let tail = found.drop_first();
        let rest = listing_of(tail);
        assert forall|i: int, j: int| 0 <= i < j < tail.len() implies (#[trigger] tail[i]).id != (
        #[trigger] tail[j]).id by {
            assert(tail[i] == found[i + 1]);
            assert(tail[j] == found[j + 1]);
        }
        listing_keeps_ids_distinct(tail);
        listing_of_is_listing(tail);
        let at = slot(rest, found[0]);
        slot_is_within(rest, found[0]);
        let listing = rest.insert(at, found[0]);
        assert forall|i: int| 0 <= i < rest.len() implies (#[trigger] rest[i]).id
            != found[0].id by {
            assert(rest.contains(rest[i]));
            listing_holds_what_was_found(rest, tail, rest[i]);
            let k = choose|k: int| 0 <= k < tail.len() && tail[k] == rest[i];
            assert(tail[k] == found[k + 1]);
        }
        assert forall|i: int, j: int| 0 <= i < j < listing.len() implies (
        #[trigger] listing[i]).id != (#[trigger] listing[j]).id by {
            if i == at {
                assert(listing[j] == rest[j - 1]);
            } else if j == at {
                assert(listing[i] == rest[i]);
            } else if i < at && j < at {
                assert(listing[i] == rest[i]);
                assert(listing[j] == rest[j]);
            } else if i < at {
                assert(listing[i] == rest[i]);
                assert(listing[j] == rest[j - 1]);
            } else {
                assert(listing[i] == rest[i - 1]);
                assert(listing[j] == rest[j - 1]);
            }
        }
    }
}

/// On a disk whose scan reports the files of the directory, a listing
/// changes no file and answers with the records that the directory shows,
/// each of them once, and with no others: latest start first, records
/// without a start last.
pub proof fn list_runs(files: Files, archived: Option<bool>, flag: bool)
    requires
        flag == (archived == Some(true)),
        enumerates(scanned(files.of(listed_directory(flag))), files.of(listed_directory(flag))),
    ensures
        execute(files, list_step(archived)) == (Run {
            files,
            step: StepView::Finish(
                Ok(
                    OutcomeView::Listed(
                        listed(files, flag, scanned(files.of(listed_directory(flag)))),
                    ),
                ),
            ),
        }),
        latest_first(listed(files, flag, scanned(files.of(listed_directory(flag))))),
        distinct_ids(listed(files, flag, scanned(files.of(listed_directory(flag))))),
        forall|race: RaceView|
            listed(files, flag, scanned(files.of(listed_directory(flag)))).contains(race)
                <==> #[trigger] shows(files, listed_directory(flag), race),
{
    let directory = listed_directory(flag);
    let held = files.of(directory);
    let entries = scanned(held);
    let names = record_files(entries);
    let read = read_all(held, names);
    let found = found_races(read, flag);
    let listing = listed(files, flag, entries);
    assert forall|k: int| 0 <= k < names.len() implies held.contains_key(names[k]) by {
        let i = record_file_comes_from_an_entry(entries, k);
        assert(held.contains_key(entries[i].name));
    }
    listing_of_is_listing(found);
    record_files_are_distinct(entries);
    found_races_have_distinct_ids(read, flag);
    listing_keeps_ids_distinct(found);
    assert forall|race: RaceView| listing.contains(race) <==> #[trigger] shows(
        files,
        directory,
        race,
    ) by {
        listing_holds_what_was_found(listing, found, race);
        if found.contains(race) {
            shown_if_found(files, flag, race);
        }
        if shows(files, directory, race) {
            found_if_shown(files, flag, race);
        }
    }
}

/// A record that a listing found is one that the directory shows.
proof fn shown_if_found(files: Files, flag: bool, race: RaceView)
    requires
        found_races(
            read_all(
                files.of(listed_directory(flag)),
                record_files(scanned(files.of(listed_directory(flag)))),
            ),
            flag,
        ).contains(race),
        enumerates(scanned(files.of(listed_directory(flag))), files.of(listed_directory(flag))),
    ensures
        shows(files, listed_directory(flag), race),
{
    let directory = listed_directory(flag);
    let held = files.of(directory);
    let entries = scanned(held);
    let names = record_files(entries);
    let read = read_all(held, names);
    let k = found_race_comes_from_a_file(read, flag, race);
    let race_id = race_id_of(read[k].file)->0;
    assert(read[k].file == names[k]);
    race_id_of_inverts_file_name_of(names[k], race_id);
    let i = record_file_comes_from_an_entry(entries, k);
    assert(held.contains_key(entries[i].name));
}

/// A record that the directory shows is one that a listing finds.
proof fn found_if_shown(files: Files, flag: bool, race: RaceView)
    requires
        shows(files, listed_directory(flag), race),
        enumerates(scanned(files.of(listed_directory(flag))), files.of(listed_directory(flag))),
    ensures
        found_races(
            read_all(
                files.of(listed_directory(flag)),
                record_files(scanned(files.of(listed_directory(flag)))),
            ),
            flag,
        ).contains(race),
{
    let directory = listed_directory(flag);
    let held = files.of(directory);
    let entries = scanned(held);
    let names = record_files(entries);
    let read = read_all(held, names);
    let race_id = race.id->0;
    let file = file_name_of(race_id);
    race_id_of_inverts_file_name_of(file, race_id);
    assert(held.contains_key(file));
    let i = choose|i: int|
        0 <= i < entries.len() && (#[trigger] entries[i]).name == file && entries[i].is_file;
    assert(is_record_file(entries[i]));
    let k = record_entry_is_a_record_file(entries, i);
    assert(read[k].file == file);
    assert(listed_race(read[k], flag) == Some(race));
    file_contributes_a_found_race(read, flag, race, k);
}

} // verus!
