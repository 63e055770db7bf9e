//! How the operations of the store follow on one another.
//!
//! Each statement runs operations in a row on the ideal disk of
//! [`crate::race::model`] and says what the later one answers.

use crate::race::error::RaceErrorView;
use crate::race::files::{file_name_of, file_name_of_is_injective, Directory};
use crate::race::model::{
    archive_runs, create_runs, delete_runs, execute, get_runs, looked_up, restore_runs,
    update_runs, Files, Run,
};
use crate::race::protocol::{OutcomeView, ServiceErrorView, StepView};
use crate::race::record::RaceView;
use crate::race::service::{
    archive_step, create_step, delete_step, get_step, restore_step, update_step,
};
use vstd::prelude::*;

verus! {

/// The record that the lookup of `race_id` hands out when the file holds
/// `race`: the record as it was written, under the identifier and with the
/// flag of the directory it lies in.
pub open spec fn found(race: RaceView, race_id: Seq<char>, archived: bool) -> Result<
    OutcomeView,
    ServiceErrorView,
> {
    Ok(OutcomeView::Found(Some(race.located(race_id, archived))))
}

/// A record that was created is found under its identifier, field for
/// field as it was handed in, but for the archived flag, which says that
/// the record is active.
pub proof fn created_record_is_found(files: Files, race: RaceView, race_id: Seq<char>)
    requires
        race.id == Some(race_id),
        execute(files, create_step(race)).ended(Ok(OutcomeView::Done)),
    ensures
        execute(execute(files, create_step(race)).files, get_step(race_id)).ended(
            found(race, race_id, false),
        ),
        race.located(race_id, false) == (RaceView { archived: false, ..race }),
{
    create_runs(files, race);
    get_runs(execute(files, create_step(race)).files, race_id);
}

/// Once a creation under an identifier has run, whatever its result, the
/// next creation under that identifier is refused because the identifier is
/// taken, and changes nothing.
pub proof fn second_create_is_refused(
    files: Files,
    race: RaceView,
    other: RaceView,
    race_id: Seq<char>,
)
    requires
        race.id == Some(race_id),
        other.id == Some(race_id),
    ensures
        execute(execute(files, create_step(race)).files, create_step(other)) == (Run {
            files: execute(files, create_step(race)).files,
            step: StepView::Finish(
                Err(ServiceErrorView::Race(RaceErrorView::AlreadyExists(race_id))),
            ),
        }),
{
    create_runs(files, race);
    create_runs(execute(files, create_step(race)).files, other);
}

/// A record that was archived is found among the archived records: the
/// lookup reads what the active file held and hands it out flagged as
/// archived.
pub proof fn archived_record_is_found_archived(files: Files, race_id: Seq<char>)
    requires
        execute(files, archive_step(race_id)).ended(Ok(OutcomeView::Done)),
    ensures
        files.holds(Directory::Active, race_id),
        execute(execute(files, archive_step(race_id)).files, get_step(race_id)).ended(
            looked_up(files.document(Directory::Active, race_id), race_id, true),
        ),
        forall|race: RaceView|
            execute(execute(files, archive_step(race_id)).files, get_step(race_id)).ended(
                Ok(OutcomeView::Found(Some(race))),
            ) ==> race.archived,
{
    archive_runs(files, race_id);
    get_runs(execute(files, archive_step(race_id)).files, race_id);
}

/// A record that was restored is found among the active records: the
/// lookup reads what the archived file held and hands it out flagged as
/// active.
pub proof fn restored_record_is_found_active(files: Files, race_id: Seq<char>)
    requires
        execute(files, restore_step(race_id)).ended(Ok(OutcomeView::Done)),
    ensures
        files.holds(Directory::Archived, race_id),
        execute(execute(files, restore_step(race_id)).files, get_step(race_id)).ended(
            looked_up(files.document(Directory::Archived, race_id), race_id, false),
        ),
        forall|race: RaceView|
            execute(execute(files, restore_step(race_id)).files, get_step(race_id)).ended(
                Ok(OutcomeView::Found(Some(race))),
            ) ==> !race.archived,
{
    restore_runs(files, race_id);
    get_runs(execute(files, restore_step(race_id)).files, race_id);
}

/// Archiving a record that no archived record shares its identifier with,
/// and restoring it at once, leaves every file as it was.
pub proof fn archive_then_restore_changes_nothing(files: Files, race_id: Seq<char>)
    requires
        files.holds(Directory::Active, race_id),
        !files.holds(Directory::Archived, race_id),
    ensures
        execute(files, archive_step(race_id)).ended(Ok(OutcomeView::Done)),
        execute(execute(files, archive_step(race_id)).files, restore_step(race_id)) == (Run {
            files,
            step: StepView::Finish(Ok(OutcomeView::Done)),
        }),
{
    archive_runs(files, race_id);
    let archived = execute(files, archive_step(race_id)).files;
    restore_runs(archived, race_id);
    let restored = execute(archived, restore_step(race_id)).files;
    assert(restored.active =~= files.active);
    assert(restored.archived =~= files.archived);
}

/// Archiving a record that is not active reports that it was not found,
/// and changes nothing.
pub proof fn archive_needs_active_record(files: Files, race_id: Seq<char>)
    requires
        !files.holds(Directory::Active, race_id),
    ensures
        execute(files, archive_step(race_id)) == (Run {
            files,
            step: StepView::Finish(Err(ServiceErrorView::Race(RaceErrorView::NotFound(race_id)))),
        }),
{
    archive_runs(files, race_id);
}

/// Restoring a record that is not archived reports that it was not found,
/// and changes nothing.
pub proof fn restore_needs_archived_record(files: Files, race_id: Seq<char>)
    requires
        !files.holds(Directory::Archived, race_id),
    ensures
        execute(files, restore_step(race_id)) == (Run {
            files,
            step: StepView::Finish(Err(ServiceErrorView::Race(RaceErrorView::NotFound(race_id)))),
        }),
{
    restore_runs(files, race_id);
}

/// Restoring an archived record whose identifier an active record has is
/// refused because the identifier is taken, and changes nothing.
pub proof fn restore_onto_active_record_is_refused(files: Files, race_id: Seq<char>)
    requires
        files.holds(Directory::Archived, race_id),
        files.holds(Directory::Active, race_id),
    ensures
        execute(files, restore_step(race_id)) == (Run {
            files,
            step: StepView::Finish(
                Err(ServiceErrorView::Race(RaceErrorView::AlreadyExists(race_id))),
            ),
        }),
{
    restore_runs(files, race_id);
}

/// An update that gives a record a new identifier deletes the file of the
/// old one and writes the file of the new one. Afterwards the record is
/// found under the new identifier with the content of the update. Under the
/// old identifier nothing is found, unless an archived record has it.
pub proof fn update_moves_record_to_new_identifier(
    files: Files,
    race_id: Seq<char>,
    race: RaceView,
    new_id: Seq<char>,
)
    requires
        race.id == Some(new_id),
        new_id != race_id,
        execute(files, update_step(race_id, race)).ended(Ok(OutcomeView::Done)),
    ensures
        !execute(files, update_step(race_id, race)).files.holds(Directory::Active, race_id),
        execute(files, update_step(race_id, race)).files.holds(Directory::Active, new_id),
        !files.holds(Directory::Archived, race_id) ==> execute(
            execute(files, update_step(race_id, race)).files,
            get_step(race_id),
        ).ended(Ok(OutcomeView::Found(None))),
        execute(execute(files, update_step(race_id, race)).files, get_step(new_id)).ended(
            found(race, new_id, false),
        ),
{
    update_runs(files, race_id, race);
    let after = execute(files, update_step(race_id, race)).files;
    get_runs(after, race_id);
    get_runs(after, new_id);
    if file_name_of(new_id) == file_name_of(race_id) {
        file_name_of_is_injective(new_id, race_id);
    }
}

/// An update that keeps the identifier replaces the content of the record:
/// afterwards the record is found with the content of the update.
pub proof fn update_in_place_replaces_content(files: Files, race_id: Seq<char>, race: RaceView)
    requires
        race.id == Some(race_id) || race.id is None,
        execute(files, update_step(race_id, race)).ended(Ok(OutcomeView::Done)),
    ensures
        execute(execute(files, update_step(race_id, race)).files, get_step(race_id)).ended(
            found(race, race_id, false),
        ),
{
    update_runs(files, race_id, race);
    get_runs(execute(files, update_step(race_id, race)).files, race_id);
}

/// A record that is kept once, active or archived, is gone once it was
/// deleted: the lookup finds nothing.
pub proof fn deleted_record_is_gone(files: Files, race_id: Seq<char>)
    requires
        !(files.holds(Directory::Active, race_id) && files.holds(Directory::Archived, race_id)),
        execute(files, delete_step(race_id)).ended(Ok(OutcomeView::Done)),
    ensures
        execute(execute(files, delete_step(race_id)).files, get_step(race_id)).ended(
            Ok(OutcomeView::Found(None)),
        ),
{
    delete_runs(files, race_id);
    get_runs(execute(files, delete_step(race_id)).files, race_id);
}

/// Deleting a record that is neither active nor archived reports that it
/// was not found, and changes nothing.
pub proof fn delete_needs_a_record(files: Files, race_id: Seq<char>)
    requires
        !files.holds(Directory::Active, race_id),
        !files.holds(Directory::Archived, race_id),
    ensures
        execute(files, delete_step(race_id)) == (Run {
            files,
            step: StepView::Finish(Err(ServiceErrorView::Race(RaceErrorView::NotFound(race_id)))),
        }),
{
    delete_runs(files, race_id);
}

} // verus!
