//! The record store: what each operation asks of the disk, in which order,
//! and what it makes of the answers.

use crate::race::error::{RaceError, RaceErrorView};
use crate::race::files::{file_name, file_name_of, Directory};
use crate::race::listing::{collect_races, found_races, record_files, select_record_files};
use crate::race::ordering::{listing_of, sort_by_start};
use crate::race::protocol::{
    Command, CommandView, Document, DocumentView, FileDocument, Outcome, OutcomeView, Reply,
    ReplyView, ServiceError, ServiceErrorView, Step, StepView, Task, TaskView,
};
use crate::race::record::{Race, RaceView};
use vstd::prelude::*;
use vstd::string::*;

verus! {

/// The directory that a listing reads: the archived one where archived
/// records are asked for, the active one otherwise.
pub open spec fn listed_directory(archived: bool) -> Directory {
    if archived {
        Directory::Archived
    } else {
        Directory::Active
    }
}

/// The failure reported for a file that is there but holds no record.
pub open spec fn malformed() -> ServiceErrorView {
    ServiceErrorView::Storage("the file does not hold a race"@)
}

/// The failure reported for a reply that does not answer the command.
pub open spec fn unexpected() -> ServiceErrorView {
    ServiceErrorView::Storage("the reply does not answer the command"@)
}

/// The first step of a listing.
pub open spec fn list_step(archived: Option<bool>) -> StepView {
    let archived = archived == Some(true);
    StepView::Perform(
        CommandView::Scan { directory: listed_directory(archived) },
        TaskView::ListScanned { archived },
    )
}

/// The first step of a lookup.
pub open spec fn get_step(race_id: Seq<char>) -> StepView {
    StepView::Perform(
        CommandView::Probe { directory: Directory::Active, file: file_name_of(race_id) },
        TaskView::GetActive { race_id },
    )
}

/// The first step of a creation.
pub open spec fn create_step(race: RaceView) -> StepView {
    match race.id {
        None => StepView::Finish(Err(ServiceErrorView::Race(RaceErrorView::IdIsMandatory))),
        Some(race_id) => StepView::Perform(
            CommandView::Probe { directory: Directory::Active, file: file_name_of(race_id) },
            TaskView::Create { race_id, race },
        ),
    }
}

/// The first step of an update.
pub open spec fn update_step(race_id: Seq<char>, race: RaceView) -> StepView {
    StepView::Perform(
        CommandView::Probe { directory: Directory::Active, file: file_name_of(race_id) },
        TaskView::Update { race_id, race },
    )
}

/// The first step of a deletion.
pub open spec fn delete_step(race_id: Seq<char>) -> StepView {
    StepView::Perform(
        CommandView::Probe { directory: Directory::Active, file: file_name_of(race_id) },
        TaskView::DeleteActive { race_id },
    )
}

/// The first step of an archiving.
pub open spec fn archive_step(race_id: Seq<char>) -> StepView {
    StepView::Perform(
        CommandView::Probe { directory: Directory::Active, file: file_name_of(race_id) },
        TaskView::Archive { race_id },
    )
}

/// The first step of a restoring.
pub open spec fn restore_step(race_id: Seq<char>) -> StepView {
    StepView::Perform(
        CommandView::Probe { directory: Directory::Archived, file: file_name_of(race_id) },
        TaskView::RestoreArchived { race_id },
    )
}

/// The step that writes a record to its file and ends the operation.
pub open spec fn save_step(directory: Directory, race_id: Seq<char>, race: RaceView) -> StepView {
    StepView::Perform(
        CommandView::Store { directory, file: file_name_of(race_id), race },
        TaskView::Stored,
    )
}

/// The step that deletes the file of a record and ends the operation.
pub open spec fn remove_step(directory: Directory, race_id: Seq<char>) -> StepView {
    StepView::Perform(
        CommandView::Remove { directory, file: file_name_of(race_id) },
        TaskView::Removed,
    )
}

/// The step that moves the file of a record to the other directory and
/// ends the operation.
pub open spec fn rename_step(from: Directory, to: Directory, race_id: Seq<char>) -> StepView {
    StepView::Perform(
        CommandView::Move { from, to, file: file_name_of(race_id) },
        TaskView::Moved,
    )
}

/// The operation ends because the record it needs is not there.
pub open spec fn not_found(race_id: Seq<char>) -> StepView {
    StepView::Finish(Err(ServiceErrorView::Race(RaceErrorView::NotFound(race_id))))
}

/// The operation ends because the identifier is taken.
pub open spec fn already_exists(race_id: Seq<char>) -> StepView {
    StepView::Finish(Err(ServiceErrorView::Race(RaceErrorView::AlreadyExists(race_id))))
}

/// The identifier under which an update writes: the one the record
/// carries, where it carries one, else the one the update was asked for.
pub open spec fn updated_id(race_id: Seq<char>, race: RaceView) -> Seq<char> {
    match race.id {
        Some(new_id) => new_id,
        None => race_id,
    }
}

/// What a task does with the reply it was waiting for, where the reply
/// answers its command.
pub open spec fn answered(task: TaskView, reply: ReplyView) -> Option<StepView> {
    match (task, reply) {
        (TaskView::ListScanned { archived }, ReplyView::Scanned(entries)) => Some(
            StepView::Perform(
                CommandView::LoadAll {
                    directory: listed_directory(archived),
                    files: record_files(entries),
                },
                TaskView::ListLoaded { archived },
            ),
        ),
        (TaskView::ListLoaded { archived }, ReplyView::LoadedAll(read)) => Some(
            StepView::Finish(Ok(OutcomeView::Listed(listing_of(found_races(read, archived))))),
        ),
        (TaskView::GetActive { race_id }, ReplyView::Probed(exists)) => Some(
            if exists {
                StepView::Perform(
                    CommandView::Load {
                        directory: Directory::Active,
                        file: file_name_of(race_id),
                    },
                    TaskView::GetLoaded { race_id, archived: false },
                )
            } else {
                StepView::Perform(
                    CommandView::Probe {
                        directory: Directory::Archived,
                        file: file_name_of(race_id),
                    },
                    TaskView::GetArchived { race_id },
                )
            },
        ),
        (TaskView::GetArchived { race_id }, ReplyView::Probed(exists)) => Some(
            if exists {
                StepView::Perform(
                    CommandView::Load {
                        directory: Directory::Archived,
                        file: file_name_of(race_id),
                    },
                    TaskView::GetLoaded { race_id, archived: true },
                )
            } else {
                StepView::Finish(Ok(OutcomeView::Found(None)))
            },
        ),
        (TaskView::GetLoaded { race_id, archived }, ReplyView::Loaded(document)) => Some(
            match document {
                DocumentView::Race(race) => StepView::Finish(
                    Ok(OutcomeView::Found(Some(race.located(race_id, archived)))),
                ),
                DocumentView::Empty => StepView::Finish(Ok(OutcomeView::Found(None))),
                DocumentView::Malformed => StepView::Finish(Err(malformed())),
            },
        ),
        (TaskView::Create { race_id, race }, ReplyView::Probed(exists)) => Some(
            if exists {
                already_exists(race_id)
            } else {
                save_step(Directory::Active, race_id, race)
            },
        ),
        (TaskView::Update { race_id, race }, ReplyView::Probed(exists)) => Some(
            if !exists {
                not_found(race_id)
            } else if updated_id(race_id, race) != race_id {
                StepView::Perform(
                    CommandView::Remove {
                        directory: Directory::Active,
                        file: file_name_of(race_id),
                    },
                    TaskView::UpdateRemoved { race_id: updated_id(race_id, race), race },
                )
            } else {
                save_step(Directory::Active, race_id, race)
            },
        ),
        (TaskView::UpdateRemoved { race_id, race }, ReplyView::Removed) => Some(
            save_step(Directory::Active, race_id, race),
        ),
        (TaskView::DeleteActive { race_id }, ReplyView::Probed(exists)) => Some(
            if exists {
                remove_step(Directory::Active, race_id)
            } else {
                StepView::Perform(
                    CommandView::Probe {
                        directory: Directory::Archived,
                        file: file_name_of(race_id),
                    },
                    TaskView::DeleteArchived { race_id },
                )
            },
        ),
        (TaskView::DeleteArchived { race_id }, ReplyView::Probed(exists)) => Some(
            if exists {
                remove_step(Directory::Archived, race_id)
            } else {
                not_found(race_id)
            },
        ),
        (TaskView::Archive { race_id }, ReplyView::Probed(exists)) => Some(
            if exists {
                rename_step(Directory::Active, Directory::Archived, race_id)
            } else {
                not_found(race_id)
            },
        ),
        (TaskView::RestoreArchived { race_id }, ReplyView::Probed(exists)) => Some(
            if exists {
                StepView::Perform(
                    CommandView::Probe {
                        directory: Directory::Active,
                        file: file_name_of(race_id),
                    },
                    TaskView::RestoreActive { race_id },
                )
            } else {
                not_found(race_id)
            },
        ),
        (TaskView::RestoreActive { race_id }, ReplyView::Probed(exists)) => Some(
            if exists {
                already_exists(race_id)
            } else {
                rename_step(Directory::Archived, Directory::Active, race_id)
            },
        ),
        (TaskView::Stored, ReplyView::Stored) => Some(StepView::Finish(Ok(OutcomeView::Done))),
        (TaskView::Removed, ReplyView::Removed) => Some(StepView::Finish(Ok(OutcomeView::Done))),
        (TaskView::Moved, ReplyView::Moved) => Some(StepView::Finish(Ok(OutcomeView::Done))),
        _ => None,
    }
}

/// What a task does with a reply: a failure of the disk ends the operation
/// with that failure, a reply that answers the command is acted on, and any
/// other reply ends the operation as a failure too.
pub open spec fn resume_step(task: TaskView, reply: ReplyView) -> StepView {
    match reply {
        ReplyView::Failed(reason) => StepView::Finish(Err(ServiceErrorView::Storage(reason))),
        _ => match answered(task, reply) {
            Some(step) => step,
            None => StepView::Finish(Err(unexpected())),
        },
    }
}

/// The most commands that an operation can still ask for while it waits
/// as `task` says, the one it is waiting for counted in.
pub open spec fn commands_left(task: TaskView) -> nat {
    match task {
        TaskView::GetActive { .. } => 3,
        TaskView::Update { .. } => 3,
        TaskView::DeleteActive { .. } => 3,
        TaskView::RestoreArchived { .. } => 3,
        TaskView::ListScanned { .. } => 2,
        TaskView::GetArchived { .. } => 2,
        TaskView::Create { .. } => 2,
        TaskView::UpdateRemoved { .. } => 2,
        TaskView::DeleteArchived { .. } => 2,
        TaskView::Archive { .. } => 2,
        TaskView::RestoreActive { .. } => 2,
        TaskView::ListLoaded { .. } => 1,
        TaskView::GetLoaded { .. } => 1,
        TaskView::Stored => 1,
        TaskView::Removed => 1,
        TaskView::Moved => 1,
    }
}

/// The most commands that an operation at this step can still ask for.
pub open spec fn steps_left(step: StepView) -> nat {
    match step {
        StepView::Perform(_, task) => commands_left(task),
        StepView::Finish(_) => 0,
    }
}

/// Whatever the reply, it brings the operation nearer to its end: an
/// operation comes to an end on every disk, however the disk behaves.
pub proof fn reply_brings_the_end_nearer(task: TaskView, reply: ReplyView)
    ensures
        steps_left(resume_step(task, reply)) < commands_left(task),
{
}

/// No operation asks for more than three commands.
pub proof fn operations_are_short(
    archived: Option<bool>,
    race_id: Seq<char>,
    race: RaceView,
)
    ensures
        steps_left(list_step(archived)) <= 3,
        steps_left(get_step(race_id)) <= 3,
        steps_left(create_step(race)) <= 3,
        steps_left(update_step(race_id, race)) <= 3,
        steps_left(delete_step(race_id)) <= 3,
        steps_left(archive_step(race_id)) <= 3,
        steps_left(restore_step(race_id)) <= 3,
{
}

/// Whether an outcome is of the kind that an operation waiting as `task`
/// says hands back: records for a listing, a record or nothing for a
/// lookup, and nothing but the word that it is done for a change.
pub open spec fn fits(task: TaskView, outcome: OutcomeView) -> bool {
    match task {
        TaskView::ListScanned { .. } | TaskView::ListLoaded { .. } => outcome is Listed,
        TaskView::GetActive { .. } | TaskView::GetArchived { .. } | TaskView::GetLoaded {
            ..
        } => outcome is Found,
        _ => outcome is Done,
    }
}

/// Whatever the reply, an operation stays of its kind: where it goes on,
/// the next task hands back what this one would, and where it succeeds,
/// the outcome is of the kind that the task hands back.
pub proof fn reply_keeps_the_kind(task: TaskView, reply: ReplyView, outcome: OutcomeView)
    ensures
        match resume_step(task, reply) {
            StepView::Perform(_, next) => fits(next, outcome) == fits(task, outcome),
            StepView::Finish(Ok(handed)) => fits(task, handed),
            StepView::Finish(Err(_)) => true,
        },
{
}

/// The store of race records, over an active and an archived directory.
#[derive(Debug, Clone, PartialEq, Eq)]
pub struct RaceService {
    races_dir: String,
    archived_dir: String,
}

/// What to do with a path that is to serve as a directory of the store.
#[derive(Debug, Clone, Copy, PartialEq, Eq, Structural)]
pub enum Preparation {
    /// Nothing is there: create the directory, with the directories above it.
    Create,
    /// The directory is there: use it.
    Ready,
    /// Something else is there: the store cannot start.
    NotADirectory,
}

/// What is to be done with a path at which `exists` tells whether there is
/// anything, and `is_directory` whether that is a directory.
pub open spec fn preparation_of(exists: bool, is_directory: bool) -> Preparation {
    if !exists {
        Preparation::Create
    } else if is_directory {
        Preparation::Ready
    } else {
        Preparation::NotADirectory
    }
}

impl RaceService {
    /// A store over the two directories. Before it is used, each directory
    /// is to be treated as [`RaceService::prepare`] says.
    pub fn new(races_dir: String, archived_dir: String) -> (service: RaceService)
        ensures
            service.races_dir()@ == races_dir@,
            service.archived_dir()@ == archived_dir@,
    {
        RaceService { races_dir, archived_dir }
    }

    /// The path of the active directory.
    pub closed spec fn races_dir(&self) -> String {
        self.races_dir
    }

    /// The path of the archived directory.
    pub closed spec fn archived_dir(&self) -> String {
        self.archived_dir
    }

    /// The path of one of the two directories.
    pub open spec fn path_of(&self, directory: Directory) -> Seq<char> {
        match directory {
            Directory::Active => self.races_dir()@,
            Directory::Archived => self.archived_dir()@,
        }
    }

    /// The path of the directory that commands name as `directory`.
    pub fn path(&self, directory: Directory) -> (path: &str)
        ensures
            path@ == self.path_of(directory),
    {
        match directory {
            Directory::Active => self.races_dir.as_str(),
            Directory::Archived => self.archived_dir.as_str(),
        }
    }

    /// Decides what to do with the path of a directory at start-up, from
    /// whether anything exists at the path and whether that is a directory.
    pub fn prepare(exists: bool, is_directory: bool) -> (preparation: Preparation)
        ensures
            preparation == preparation_of(exists, is_directory),
    {
        if !exists {
            Preparation::Create
        } else if is_directory {
            Preparation::Ready
        } else {
            Preparation::NotADirectory
        }
    }

    /// Starts a listing of the archived records where `archived` is
    /// `Some(true)`, of the active records otherwise.
    pub fn list(&self, archived: Option<bool>) -> (step: Step)
        ensures
            step@ == list_step(archived),
    {
        let archived = match archived {
            Some(true) => true,
            _ => false,
        };
        let directory = if archived {
            Directory::Archived
        } else {
            Directory::Active
        };
        Step::Perform(Command::Scan { directory }, Task::ListScanned { archived })
    }

    /// Starts the lookup of a record: among the active records first, then
    /// among the archived ones.
    pub fn get(&self, race_id: String) -> (step: Step)
        ensures
            step@ == get_step(race_id@),
    {
        let file = file_name(race_id.as_str());
        Step::Perform(
            Command::Probe { directory: Directory::Active, file },
            Task::GetActive { race_id },
        )
    }

    /// The identifier that a record carries.
    pub fn get_id(&self, race: &Race) -> (race_id: Result<String, RaceError>)
        ensures
            match race_id {
                Ok(id) => race@.id == Some(id@),
                Err(error) => race@.id is None && error@ == RaceErrorView::IdIsMandatory,
            },
    {
        match &race.id {
            Some(id) => Ok(id.clone()),
            None => Err(RaceError::IdIsMandatory()),
        }
    }

    /// Starts the creation of a record under the identifier it carries.
    pub fn create(&self, race: Race) -> (step: Step)
        ensures
            step@ == create_step(race@),
    {
        match self.get_id(&race) {
            Err(error) => Step::Finish(Err(ServiceError::Race(error))),
            Ok(race_id) => {
                let file = file_name(race_id.as_str());
                Step::Perform(
                    Command::Probe { directory: Directory::Active, file },
                    Task::Create { race_id, race },
                )
            },
        }
    }

    /// Starts the update of the active record `race_id` to `race`.
    pub fn update(&self, race_id: String, race: Race) -> (step: Step)
        ensures
            step@ == update_step(race_id@, race@),
    {
        let file = file_name(race_id.as_str());
        Step::Perform(
            Command::Probe { directory: Directory::Active, file },
            Task::Update { race_id, race },
        )
    }

    /// Starts the deletion of a record, active or archived.
    pub fn delete(&self, race_id: String) -> (step: Step)
        ensures
            step@ == delete_step(race_id@),
    {
        let file = file_name(race_id.as_str());
        Step::Perform(
            Command::Probe { directory: Directory::Active, file },
            Task::DeleteActive { race_id },
        )
    }

    /// Starts the archiving of an active record.
    pub fn archive(&self, race_id: String) -> (step: Step)
        ensures
            step@ == archive_step(race_id@),
    {
        let file = file_name(race_id.as_str());
        Step::Perform(
            Command::Probe { directory: Directory::Active, file },
            Task::Archive { race_id },
        )
    }

    /// Starts the restoring of an archived record.
    pub fn restore(&self, race_id: String) -> (step: Step)
        ensures
            step@ == restore_step(race_id@),
    {
        let file = file_name(race_id.as_str());
        Step::Perform(
            Command::Probe { directory: Directory::Archived, file },
            Task::RestoreArchived { race_id },
        )
    }

    /// The step that moves the file of `race_id` from one directory to the
    /// other.
    fn rename(from: Directory, to: Directory, race_id: &str) -> (step: Step)
        ensures
            step@ == rename_step(from, to, race_id@),
    {
        Step::Perform(Command::Move { from, to, file: file_name(race_id) }, Task::Moved)
    }

    /// The step that writes `race` to the file of `race_id`.
    fn save_race(&self, directory: Directory, race_id: &str, race: Race) -> (step: Step)
        ensures
            step@ == save_step(directory, race_id@, race@),
    {
        Step::Perform(
            Command::Store { directory, file: file_name(race_id), race },
            Task::Stored,
        )
    }

    /// The step that deletes the file of `race_id`.
    fn remove(directory: Directory, race_id: &str) -> (step: Step)
        ensures
            step@ == remove_step(directory, race_id@),
    {
        Step::Perform(Command::Remove { directory, file: file_name(race_id) }, Task::Removed)
    }

    /// The step that asks whether the file of `race_id` exists.
    fn probe(directory: Directory, race_id: &str, task: Task) -> (step: Step)
        ensures
            step@ == StepView::Perform(
                CommandView::Probe { directory, file: file_name_of(race_id@) },
                task@,
            ),
    {
        Step::Perform(Command::Probe { directory, file: file_name(race_id) }, task)
    }

    /// The step that reads the file of `race_id`.
    fn load(directory: Directory, race_id: String) -> (step: Step)
        ensures
            step@ == StepView::Perform(
                CommandView::Load { directory, file: file_name_of(race_id@) },
                TaskView::GetLoaded { race_id: race_id@, archived: directory.archived_flag() },
            ),
    {
        let file = file_name(race_id.as_str());
        let archived = directory.is_archived();
        Step::Perform(Command::Load { directory, file }, Task::GetLoaded { race_id, archived })
    }

    fn fail_not_found(race_id: String) -> (step: Step)
        ensures
            step@ == not_found(race_id@),
    {
        Step::Finish(Err(ServiceError::Race(RaceError::NotFound(race_id))))
    }

    fn fail_already_exists(race_id: String) -> (step: Step)
        ensures
            step@ == already_exists(race_id@),
    {
        Step::Finish(Err(ServiceError::Race(RaceError::AlreadyExists(race_id))))
    }

    fn fail_unexpected() -> (step: Step)
        ensures
            step@ == StepView::Finish(Err(unexpected())),
    {
        Step::Finish(
            Err(ServiceError::Storage(String::from_str("the reply does not answer the command"))),
        )
    }

    /// Goes on with the probe of an update: the record has to be active,
    /// and where it is to change its identifier, the old file goes first.
    fn update_probed(&self, race_id: String, race: Race, exists: bool) -> (step: Step)
        ensures
            Some(step@) == answered(
                TaskView::Update { race_id: race_id@, race: race@ },
                ReplyView::Probed(exists),
            ),
    {
        if !exists {
            return Self::fail_not_found(race_id);
        }
        let renamed: Option<String> = match &race.id {
            Some(new_id) => if *new_id == race_id {
                None
            } else {
                Some(new_id.clone())
            },
            None => None,
        };
        match renamed {
            Some(new_id) => Step::Perform(
                Command::Remove {
                    directory: Directory::Active,
                    file: file_name(race_id.as_str()),
                },
                Task::UpdateRemoved { race_id: new_id, race },
            ),
            None => self.save_race(Directory::Active, race_id.as_str(), race),
        }
    }

    /// Goes on with a listing once its record files are read.
    fn list_loaded(&self, archived: bool, read: Vec<FileDocument>) -> (step: Step)
        ensures
            step@ == StepView::Finish(
                Ok(OutcomeView::Listed(listing_of(found_races(read.deep_view(), archived)))),
            ),
    {
        let races = collect_races(read, archived);
        Step::Finish(Ok(Outcome::Listed(sort_by_start(races))))
    }

    /// Goes on with a lookup once the file of the record is read.
    fn get_loaded(&self, race_id: String, archived: bool, document: Document) -> (step: Step)
        ensures
            Some(step@) == answered(
                TaskView::GetLoaded { race_id: race_id@, archived },
                ReplyView::Loaded(document@),
            ),
    {
        match document {
            Document::Race(race) => Step::Finish(
                Ok(Outcome::Found(Some(race.locate(race_id, archived)))),
            ),
            Document::Empty => Step::Finish(Ok(Outcome::Found(None))),
            Document::Malformed => Step::Finish(
                Err(ServiceError::Storage(String::from_str("the file does not hold a race"))),
            ),
        }
    }

    /// Goes on with an operation whose command was answered by `exists`.
    fn probed(&self, task: Task, exists: bool) -> (step: Step)
        ensures
            step@ == resume_step(task@, ReplyView::Probed(exists)),
    {
        match task {
            Task::GetActive { race_id } => if exists {
                Self::load(Directory::Active, race_id)
            } else {
                Self::probe(
                    Directory::Archived,
                    race_id.as_str(),
                    Task::GetArchived { race_id: race_id.clone() },
                )
            },
            Task::GetArchived { race_id } => if exists {
                Self::load(Directory::Archived, race_id)
            } else {
                Step::Finish(Ok(Outcome::Found(None)))
            },
            Task::Create { race_id, race } => if exists {
                Self::fail_already_exists(race_id)
            } else {
                self.save_race(Directory::Active, race_id.as_str(), race)
            },
            Task::Update { race_id, race } => self.update_probed(race_id, race, exists),
            Task::DeleteActive { race_id } => if exists {
                Self::remove(Directory::Active, race_id.as_str())
            } else {
                Self::probe(
                    Directory::Archived,
                    race_id.as_str(),
                    Task::DeleteArchived { race_id: race_id.clone() },
                )
            },
            Task::DeleteArchived { race_id } => if exists {
                Self::remove(Directory::Archived, race_id.as_str())
            } else {
                Self::fail_not_found(race_id)
            },
            Task::Archive { race_id } => if exists {
                Self::rename(Directory::Active, Directory::Archived, race_id.as_str())
            } else {
                Self::fail_not_found(race_id)
            },
            Task::RestoreArchived { race_id } => if exists {
                Self::probe(
                    Directory::Active,
                    race_id.as_str(),
                    Task::RestoreActive { race_id: race_id.clone() },
                )
            } else {
                Self::fail_not_found(race_id)
            },
            Task::RestoreActive { race_id } => if exists {
                Self::fail_already_exists(race_id)
            } else {
                Self::rename(Directory::Archived, Directory::Active, race_id.as_str())
            },
            _ => Self::fail_unexpected(),
        }
    }

    /// Goes on with an operation: takes the reply to the command of its
    /// last step and gives the next step.
    pub fn resume(&self, task: Task, reply: Reply) -> (step: Step)
        ensures
            step@ == resume_step(task@, reply@),
    {
        match reply {
            Reply::Failed(reason) => Step::Finish(Err(ServiceError::Storage(reason))),
            Reply::Probed(exists) => self.probed(task, exists),
            Reply::Scanned(entries) => match task {
                Task::ListScanned { archived } => {
                    let directory = if archived {
                        Directory::Archived
                    } else {
                        Directory::Active
                    };
                    Step::Perform(
                        Command::LoadAll { directory, files: select_record_files(&entries) },
                        Task::ListLoaded { archived },
                    )
                },
                _ => Self::fail_unexpected(),
            },
            Reply::LoadedAll(read) => match task {
                Task::ListLoaded { archived } => self.list_loaded(archived, read),
                _ => Self::fail_unexpected(),
            },
            Reply::Loaded(document) => match task {
                Task::GetLoaded { race_id, archived } => self.get_loaded(
                    race_id,
                    archived,
                    document,
                ),
                _ => Self::fail_unexpected(),
            },
            Reply::Stored => match task {
                Task::Stored => Step::Finish(Ok(Outcome::Done)),
                _ => Self::fail_unexpected(),
            },
            Reply::Removed => match task {
                Task::Removed => Step::Finish(Ok(Outcome::Done)),
                Task::UpdateRemoved { race_id, race } => self.save_race(
                    Directory::Active,
                    race_id.as_str(),
                    race,
                ),
                _ => Self::fail_unexpected(),
            },
            Reply::Moved => match task {
                Task::Moved => Step::Finish(Ok(Outcome::Done)),
                _ => Self::fail_unexpected(),
            },
        }
    }
}

} // verus!
