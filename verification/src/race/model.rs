//! The store at work on an ideal disk.
//!
//! The store itself only decides. What its decisions amount to shows once
//! the commands are carried out. This module carries them out on a model of
//! the two directories, in which every command does what it says and
//! nothing else changes the files, and states what each operation then does
//! to the files and what it answers.

use crate::race::error::RaceErrorView;
use crate::race::files::{file_name_of, Directory};
use crate::race::protocol::{
    CommandView, DocumentView, EntryView, FileDocumentView, OutcomeView, ReplyView,
    ServiceErrorView, StepView,
};
use crate::race::record::RaceView;
use crate::race::service::{
    already_exists, archive_step, create_step, delete_step, get_step, malformed, not_found,
    reply_brings_the_end_nearer, restore_step, resume_step, steps_left, update_step, updated_id,
};
use vstd::prelude::*;

verus! {

/// The regular files of the two directories, each with what reading it as
/// a record would give.
pub struct Files {
    pub active: Map<Seq<char>, DocumentView>,
    pub archived: Map<Seq<char>, DocumentView>,
    /// What a move does when the destination exists: replace it, or fail.
    /// The store does not rely on either.
    pub move_replaces: bool,
}

impl Files {
    /// The files of one directory.
    pub open spec fn of(self, directory: Directory) -> Map<Seq<char>, DocumentView> {
        match directory {
            Directory::Active => self.active,
            Directory::Archived => self.archived,
        }
    }

    /// These files with one directory replaced.
    pub open spec fn with(
        self,
        directory: Directory,
        files: Map<Seq<char>, DocumentView>,
    ) -> Files {
        match directory {
            Directory::Active => Files { active: files, ..self },
            Directory::Archived => Files { archived: files, ..self },
        }
    }

    /// Whether the directory holds a file for the record `race_id`.
    pub open spec fn holds(self, directory: Directory, race_id: Seq<char>) -> bool {
        self.of(directory).contains_key(file_name_of(race_id))
    }

    /// What the file of the record `race_id` in the directory holds.
    pub open spec fn document(self, directory: Directory, race_id: Seq<char>) -> DocumentView {
        self.of(directory)[file_name_of(race_id)]
    }
}

/// The failure of a command that names a file that is not there.
pub open spec fn missing() -> ReplyView {
    ReplyView::Failed("no such file"@)
}

/// The failure of a move onto a file that is there, on a disk that does not
/// replace.
pub open spec fn occupied() -> ReplyView {
    ReplyView::Failed("the destination exists"@)
}

/// Whether `entries` could be the entries of a directory that holds these
/// regular files: each of the files is named once, as a file, and whatever
/// else is named is not a regular file.
pub open spec fn enumerates(entries: Seq<EntryView>, files: Map<Seq<char>, DocumentView>) -> bool {
    &&& forall|i: int|
        0 <= i < entries.len() && (#[trigger] entries[i]).is_file ==> files.contains_key(
            entries[i].name,
        )
    &&& forall|i: int, j: int|
        0 <= i < j < entries.len() ==> (#[trigger] entries[i]).name != (#[trigger] entries[j]).name
    &&& forall|file: Seq<char>| #[trigger]
        files.contains_key(file) ==> exists|i: int|
            0 <= i < entries.len() && (#[trigger] entries[i]).name == file && entries[i].is_file
}

/// The entries that a scan of the directory reports: its files, and what
/// else it may hold, in an order of the disk's choosing.
pub open spec fn scanned(files: Map<Seq<char>, DocumentView>) -> Seq<EntryView> {
    choose|entries: Seq<EntryView>| enumerates(entries, files)
}

/// What the disk does with a command: the files afterwards, and the reply.
pub open spec fn perform(files: Files, command: CommandView) -> (Files, ReplyView) {
    match command {
        CommandView::Probe { directory, file } => (
            files,
            ReplyView::Probed(files.of(directory).contains_key(file)),
        ),
        CommandView::Load { directory, file } => (
            files,
            if files.of(directory).contains_key(file) {
                ReplyView::Loaded(files.of(directory)[file])
            } else {
                missing()
            },
        ),
        CommandView::LoadAll { directory, files: names } => (
            files,
            if forall|i: int| 0 <= i < names.len() ==> files.of(directory).contains_key(names[i]) {
                ReplyView::LoadedAll(
                    names.map_values(
                        |file: Seq<char>|
                            FileDocumentView { file, document: files.of(directory)[file] },
                    ),
                )
            } else {
                missing()
            },
        ),
        CommandView::Store { directory, file, race } => (
            files.with(
                directory,
                files.of(directory).insert(file, DocumentView::Race(race.content())),
            ),
            ReplyView::Stored,
        ),
        CommandView::Remove { directory, file } => if files.of(directory).contains_key(file) {
            (files.with(directory, files.of(directory).remove(file)), ReplyView::Removed)
        } else {
            (files, missing())
        },
        CommandView::Move { from, to, file } => if !files.of(from).contains_key(file) {
            (files, missing())
        } else if from == to {
            (files, ReplyView::Moved)
        } else if files.of(to).contains_key(file) && !files.move_replaces {
            (files, occupied())
        } else {
            (
                files.with(from, files.of(from).remove(file)).with(
                    to,
                    files.of(to).insert(file, files.of(from)[file]),
                ),
                ReplyView::Moved,
            )
        },
        CommandView::Scan { directory } => (files, ReplyView::Scanned(scanned(files.of(directory)))),
    }
}

/// An operation under way: the files as they stand and the step it is at.
pub struct Run {
    pub files: Files,
    pub step: StepView,
}

impl Run {
    /// The operation has ended with this result.
    pub open spec fn ended(self, result: Result<OutcomeView, ServiceErrorView>) -> bool {
        self.step == StepView::Finish(result)
    }
}

/// Carries out the command of the step, if it has one, and lets the store
/// go on with the reply.
pub open spec fn advance(run: Run) -> Run {
    match run.step {
        StepView::Perform(command, task) => {
            let (files, reply) = perform(run.files, command);
            Run { files, step: resume_step(task, reply) }
        },
        StepView::Finish(_) => run,
    }
}

/// Runs an operation from its first step. No operation takes more than
/// three commands.
pub open spec fn execute(files: Files, first: StepView) -> Run {
    advance(advance(advance(Run { files, step: first })))
}

/// A run of three commands brings an operation to its end.
pub proof fn execute_ends(files: Files, first: StepView)
    requires
        steps_left(first) <= 3,
    ensures
        execute(files, first).step is Finish,
{
    let one = advance(Run { files, step: first });
    let two = advance(one);
    if let StepView::Perform(command, task) = first {
        reply_brings_the_end_nearer(task, perform(files, command).1);
    }
    if let StepView::Perform(command, task) = one.step {
        reply_brings_the_end_nearer(task, perform(one.files, command).1);
    }
    if let StepView::Perform(command, task) = two.step {
        reply_brings_the_end_nearer(task, perform(two.files, command).1);
    }
}

/// What a lookup makes of the document it read.
pub open spec fn looked_up(document: DocumentView, race_id: Seq<char>, archived: bool) -> Result<
    OutcomeView,
    ServiceErrorView,
> {
    match document {
        DocumentView::Race(race) => Ok(OutcomeView::Found(Some(race.located(race_id, archived)))),
        DocumentView::Empty => Ok(OutcomeView::Found(None)),
        DocumentView::Malformed => Err(malformed()),
    }
}

/// What a lookup answers: the active record, else the archived one, else
/// nothing.
pub open spec fn get_result(files: Files, race_id: Seq<char>) -> Result<
    OutcomeView,
    ServiceErrorView,
> {
    if files.holds(Directory::Active, race_id) {
        looked_up(files.document(Directory::Active, race_id), race_id, false)
    } else if files.holds(Directory::Archived, race_id) {
        looked_up(files.document(Directory::Archived, race_id), race_id, true)
    } else {
        Ok(OutcomeView::Found(None))
    }
}

/// A lookup changes no file and answers with the active record, else with
/// the archived one, else with nothing.
pub proof fn get_runs(files: Files, race_id: Seq<char>)
    ensures
        execute(files, get_step(race_id)) == (Run {
            files,
            step: StepView::Finish(get_result(files, race_id)),
        }),
{
}

/// The run of a creation that found the identifier free.
pub open spec fn create_run(files: Files, race: RaceView) -> Run {
    match race.id {
        None => Run {
            files,
            step: StepView::Finish(Err(ServiceErrorView::Race(RaceErrorView::IdIsMandatory))),
        },
        Some(race_id) => if files.holds(Directory::Active, race_id) {
            Run { files, step: already_exists(race_id) }
        } else {
            Run {
                files: Files {
                    active: files.active.insert(
                        file_name_of(race_id),
                        DocumentView::Race(race.content()),
                    ),
                    ..files
                },
                step: StepView::Finish(Ok(OutcomeView::Done)),
            }
        },
    }
}

/// A creation asks for an identifier, refuses one that an active record
/// has, and otherwise writes the record among the active ones and touches
/// nothing else.
pub proof fn create_runs(files: Files, race: RaceView)
    ensures
        execute(files, create_step(race)) == create_run(files, race),
{
}

/// What an update comes to.
pub open spec fn update_run(files: Files, race_id: Seq<char>, race: RaceView) -> Run {
    if !files.holds(Directory::Active, race_id) {
        Run { files, step: not_found(race_id) }
    } else {
        Run {
            files: Files {
                active: files.active.remove(file_name_of(race_id)).insert(
                    file_name_of(updated_id(race_id, race)),
                    DocumentView::Race(race.content()),
                ),
                ..files
            },
            step: StepView::Finish(Ok(OutcomeView::Done)),
        }
    }
}

/// An update needs the record to be active. It then deletes the file of
/// the old identifier and writes the record under the identifier it
/// carries, which may be the old one, and touches nothing else.
pub proof fn update_runs(files: Files, race_id: Seq<char>, race: RaceView)
    ensures
        execute(files, update_step(race_id, race)) == update_run(files, race_id, race),
{
    if files.holds(Directory::Active, race_id) {
        let file = file_name_of(race_id);
        let document = DocumentView::Race(race.content());
        if updated_id(race_id, race) == race_id {
            assert(files.active.insert(file, document) =~= files.active.remove(file).insert(
                file,
                document,
            ));
        }
    }
}

/// What a deletion comes to.
pub open spec fn delete_run(files: Files, race_id: Seq<char>) -> Run {
    if files.holds(Directory::Active, race_id) {
        Run {
            files: Files { active: files.active.remove(file_name_of(race_id)), ..files },
            step: StepView::Finish(Ok(OutcomeView::Done)),
        }
    } else if files.holds(Directory::Archived, race_id) {
        Run {
            files: Files { archived: files.archived.remove(file_name_of(race_id)), ..files },
            step: StepView::Finish(Ok(OutcomeView::Done)),
        }
    } else {
        Run { files, step: not_found(race_id) }
    }
}

/// A deletion removes the active file of the record; where there is none,
/// the archived file; where there is none either, it reports that.
pub proof fn delete_runs(files: Files, race_id: Seq<char>)
    ensures
        execute(files, delete_step(race_id)) == delete_run(files, race_id),
{
}

/// The files after the file of `race_id` went from one directory to the
/// other.
pub open spec fn moved(files: Files, from: Directory, to: Directory, race_id: Seq<char>) -> Files {
    let file = file_name_of(race_id);
    files.with(from, files.of(from).remove(file)).with(
        to,
        files.of(to).insert(file, files.of(from)[file]),
    )
}

/// What an archiving comes to.
pub open spec fn archive_run(files: Files, race_id: Seq<char>) -> Run {
    if !files.holds(Directory::Active, race_id) {
        Run { files, step: not_found(race_id) }
    } else if files.holds(Directory::Archived, race_id) && !files.move_replaces {
        Run {
            files,
            step: StepView::Finish(Err(ServiceErrorView::Storage("the destination exists"@))),
        }
    } else {
        Run {
            files: moved(files, Directory::Active, Directory::Archived, race_id),
            step: StepView::Finish(Ok(OutcomeView::Done)),
        }
    }
}

/// An archiving needs the record to be active and then moves its file to
/// the archived directory. It does not look whether an archived file of
/// that name is there: what happens then is the disk's decision.
pub proof fn archive_runs(files: Files, race_id: Seq<char>)
    ensures
        execute(files, archive_step(race_id)) == archive_run(files, race_id),
{
}

/// What a restoring comes to.
pub open spec fn restore_run(files: Files, race_id: Seq<char>) -> Run {
    if !files.holds(Directory::Archived, race_id) {
        Run { files, step: not_found(race_id) }
    } else if files.holds(Directory::Active, race_id) {
        Run { files, step: already_exists(race_id) }
    } else {
        Run {
            files: moved(files, Directory::Archived, Directory::Active, race_id),
            step: StepView::Finish(Ok(OutcomeView::Done)),
        }
    }
}

/// A restoring needs the record to be archived and its identifier to be
/// free among the active records, and then moves the file to the active
/// directory.
pub proof fn restore_runs(files: Files, race_id: Seq<char>)
    ensures
        execute(files, restore_step(race_id)) == restore_run(files, race_id),
{
}

} // verus!
