//! What passes between the store and whoever touches the disk for it.
//!
//! The store decides; it never reads or writes. Each operation is a short
//! exchange: the store names a [`Command`], the caller carries it out and
//! answers with a [`Reply`], and the store either names the next command or
//! finishes with a result.

use crate::race::error::{RaceError, RaceErrorView};
use crate::race::files::Directory;
use crate::race::record::{Race, RaceView};
use vstd::prelude::*;

verus! {

/// One entry of a directory, as a scan reports it.
#[derive(Debug, Clone, PartialEq, Eq)]
pub struct Entry {
    /// The name of the entry within its directory.
    pub name: String,
    /// Whether the entry is a regular file.
    pub is_file: bool,
}

/// The mathematical value of an [`Entry`].
pub struct EntryView {
    pub name: Seq<char>,
    pub is_file: bool,
}

impl DeepView for Entry {
    type V = EntryView;

    open spec fn deep_view(&self) -> EntryView {
        EntryView { name: self.name@, is_file: self.is_file }
    }
}

impl View for Entry {
    type V = EntryView;

    open spec fn view(&self) -> EntryView {
        self.deep_view()
    }
}

/// What reading a file as a record gave.
#[derive(Debug, Clone, PartialEq, Eq)]
pub enum Document {
    /// The file holds a record.
    Race(Race),
    /// The file holds the empty document.
    Empty,
    /// The file holds something that is no record.
    Malformed,
}

/// The mathematical value of a [`Document`].
pub enum DocumentView {
    Race(RaceView),
    Empty,
    Malformed,
}

impl DeepView for Document {
    type V = DocumentView;

    open spec fn deep_view(&self) -> DocumentView {
        match self {
            Document::Race(race) => DocumentView::Race(race@),
            Document::Empty => DocumentView::Empty,
            Document::Malformed => DocumentView::Malformed,
        }
    }
}

impl View for Document {
    type V = DocumentView;

    open spec fn view(&self) -> DocumentView {
        self.deep_view()
    }
}

/// A file of a directory together with what reading it gave.
#[derive(Debug, Clone, PartialEq, Eq)]
pub struct FileDocument {
    pub file: String,
    pub document: Document,
}

/// The mathematical value of a [`FileDocument`].
pub struct FileDocumentView {
    pub file: Seq<char>,
    pub document: DocumentView,
}

impl DeepView for FileDocument {
    type V = FileDocumentView;

    open spec fn deep_view(&self) -> FileDocumentView {
        FileDocumentView { file: self.file@, document: self.document@ }
    }
}

impl View for FileDocument {
    type V = FileDocumentView;

    open spec fn view(&self) -> FileDocumentView {
        self.deep_view()
    }
}

/// Work on the disk that the store asks for.
#[derive(Debug, Clone, PartialEq, Eq)]
pub enum Command {
    /// Report whether the file exists.
    Probe { directory: Directory, file: String },
    /// Read the file as a record.
    Load { directory: Directory, file: String },
    /// Read each of the files as a record, in the order given.
    LoadAll { directory: Directory, files: Vec<String> },
    /// Write the record to the file, creating the file or replacing what it held.
    Store { directory: Directory, file: String, race: Race },
    /// Delete the file.
    Remove { directory: Directory, file: String },
    /// Move the file from one directory to the other in one step.
    Move { from: Directory, to: Directory, file: String },
    /// Report the entries of the directory.
    Scan { directory: Directory },
}

/// The mathematical value of a [`Command`].
pub enum CommandView {
    Probe { directory: Directory, file: Seq<char> },
    Load { directory: Directory, file: Seq<char> },
    LoadAll { directory: Directory, files: Seq<Seq<char>> },
    Store { directory: Directory, file: Seq<char>, race: RaceView },
    Remove { directory: Directory, file: Seq<char> },
    Move { from: Directory, to: Directory, file: Seq<char> },
    Scan { directory: Directory },
}

impl View for Command {
    type V = CommandView;

    open spec fn view(&self) -> CommandView {
        match self {
            Command::Probe { directory, file } => CommandView::Probe {
                directory: *directory,
                file: file@,
            },
            Command::Load { directory, file } => CommandView::Load {
                directory: *directory,
                file: file@,
            },
            Command::LoadAll { directory, files } => CommandView::LoadAll {
                directory: *directory,
                files: files.deep_view(),
            },
            Command::Store { directory, file, race } => CommandView::Store {
                directory: *directory,
                file: file@,
                race: race@,
            },
            Command::Remove { directory, file } => CommandView::Remove {
                directory: *directory,
                file: file@,
            },
            Command::Move { from, to, file } => CommandView::Move {
                from: *from,
                to: *to,
                file: file@,
            },
            Command::Scan { directory } => CommandView::Scan { directory: *directory },
        }
    }
}

/// The answer to a [`Command`].
#[derive(Debug, Clone, PartialEq, Eq)]
pub enum Reply {
    /// Answers `Probe`: whether the file exists.
    Probed(bool),
    /// Answers `Load`: what the file holds.
    Loaded(Document),
    /// Answers `LoadAll`: each file that was read, with what it holds.
    LoadedAll(Vec<FileDocument>),
    /// Answers `Store`: the record is written.
    Stored,
    /// Answers `Remove`: the file is gone.
    Removed,
    /// Answers `Move`: the file is in the other directory.
    Moved,
    /// Answers `Scan`: the entries of the directory.
    Scanned(Vec<Entry>),
    /// Answers any command: the work could not be done, and why.
    Failed(String),
}

/// The mathematical value of a [`Reply`].
pub enum ReplyView {
    Probed(bool),
    Loaded(DocumentView),
    LoadedAll(Seq<FileDocumentView>),
    Stored,
    Removed,
    Moved,
    Scanned(Seq<EntryView>),
    Failed(Seq<char>),
}

impl View for Reply {
    type V = ReplyView;

    open spec fn view(&self) -> ReplyView {
        match self {
            Reply::Probed(exists) => ReplyView::Probed(*exists),
            Reply::Loaded(document) => ReplyView::Loaded(document@),
            Reply::LoadedAll(documents) => ReplyView::LoadedAll(documents.deep_view()),
            Reply::Stored => ReplyView::Stored,
            Reply::Removed => ReplyView::Removed,
            Reply::Moved => ReplyView::Moved,
            Reply::Scanned(entries) => ReplyView::Scanned(entries.deep_view()),
            Reply::Failed(reason) => ReplyView::Failed(reason@),
        }
    }
}

/// What an operation that succeeded hands back.
#[derive(Debug, Clone, PartialEq, Eq)]
pub enum Outcome {
    /// The records of a listing, in listing order.
    Listed(Vec<Race>),
    /// The record that was asked for, or nothing where there is none.
    Found(Option<Race>),
    /// The change was made.
    Done,
}

/// The mathematical value of an [`Outcome`].
pub enum OutcomeView {
    Listed(Seq<RaceView>),
    Found(Option<RaceView>),
    Done,
}

impl View for Outcome {
    type V = OutcomeView;

    open spec fn view(&self) -> OutcomeView {
        match self {
            Outcome::Listed(races) => OutcomeView::Listed(races.deep_view()),
            Outcome::Found(race) => OutcomeView::Found(race.deep_view()),
            Outcome::Done => OutcomeView::Done,
        }
    }
}

/// Why an operation did not succeed.
#[derive(Debug, Clone, PartialEq, Eq)]
pub enum ServiceError {
    /// A condition the caller is expected to handle.
    Race(RaceError),
    /// The disk, or what was found on it, let the store down.
    Storage(String),
}

/// The mathematical value of a [`ServiceError`].
pub enum ServiceErrorView {
    Race(RaceErrorView),
    Storage(Seq<char>),
}

impl View for ServiceError {
    type V = ServiceErrorView;

    open spec fn view(&self) -> ServiceErrorView {
        match self {
            ServiceError::Race(error) => ServiceErrorView::Race(error@),
            ServiceError::Storage(reason) => ServiceErrorView::Storage(reason@),
        }
    }
}

/// What the store will do with the reply it is waiting for.
#[derive(Debug, Clone, PartialEq, Eq)]
pub enum Task {
    /// A listing waits for the scan of its directory.
    ListScanned { archived: bool },
    /// A listing waits for the record files to be read.
    ListLoaded { archived: bool },
    /// A lookup waits to hear whether the record is active.
    GetActive { race_id: String },
    /// A lookup waits to hear whether the record is archived.
    GetArchived { race_id: String },
    /// A lookup waits for the record to be read.
    GetLoaded { race_id: String, archived: bool },
    /// A creation waits to hear whether the identifier is taken.
    Create { race_id: String, race: Race },
    /// An update waits to hear whether the record is active.
    Update { race_id: String, race: Race },
    /// An update under a new identifier waits for the old file to be deleted.
    UpdateRemoved { race_id: String, race: Race },
    /// A deletion waits to hear whether the record is active.
    DeleteActive { race_id: String },
    /// A deletion waits to hear whether the record is archived.
    DeleteArchived { race_id: String },
    /// An archiving waits to hear whether the record is active.
    Archive { race_id: String },
    /// A restoring waits to hear whether the record is archived.
    RestoreArchived { race_id: String },
    /// A restoring waits to hear whether the identifier is taken among the
    /// active records.
    RestoreActive { race_id: String },
    /// The operation ends when the record is written.
    Stored,
    /// The operation ends when the file is deleted.
    Removed,
    /// The operation ends when the file is moved.
    Moved,
}

/// The mathematical value of a [`Task`].
pub enum TaskView {
    ListScanned { archived: bool },
    ListLoaded { archived: bool },
    GetActive { race_id: Seq<char> },
    GetArchived { race_id: Seq<char> },
    GetLoaded { race_id: Seq<char>, archived: bool },
    Create { race_id: Seq<char>, race: RaceView },
    Update { race_id: Seq<char>, race: RaceView },
    UpdateRemoved { race_id: Seq<char>, race: RaceView },
    DeleteActive { race_id: Seq<char> },
    DeleteArchived { race_id: Seq<char> },
    Archive { race_id: Seq<char> },
    RestoreArchived { race_id: Seq<char> },
    RestoreActive { race_id: Seq<char> },
    Stored,
    Removed,
    Moved,
}

impl View for Task {
    type V = TaskView;

    open spec fn view(&self) -> TaskView {
        match self {
            Task::ListScanned { archived } => TaskView::ListScanned { archived: *archived },
            Task::ListLoaded { archived } => TaskView::ListLoaded { archived: *archived },
            Task::GetActive { race_id } => TaskView::GetActive { race_id: race_id@ },
            Task::GetArchived { race_id } => TaskView::GetArchived { race_id: race_id@ },
            Task::GetLoaded { race_id, archived } => TaskView::GetLoaded {
                race_id: race_id@,
                archived: *archived,
            },
            Task::Create { race_id, race } => TaskView::Create {
                race_id: race_id@,
                race: race@,
            },
            Task::Update { race_id, race } => TaskView::Update {
                race_id: race_id@,
                race: race@,
            },
            Task::UpdateRemoved { race_id, race } => TaskView::UpdateRemoved {
                race_id: race_id@,
                race: race@,
            },
            Task::DeleteActive { race_id } => TaskView::DeleteActive { race_id: race_id@ },
            Task::DeleteArchived { race_id } => TaskView::DeleteArchived { race_id: race_id@ },
            Task::Archive { race_id } => TaskView::Archive { race_id: race_id@ },
            Task::RestoreArchived { race_id } => TaskView::RestoreArchived {
                race_id: race_id@,
            },
            Task::RestoreActive { race_id } => TaskView::RestoreActive { race_id: race_id@ },
            Task::Stored => TaskView::Stored,
            Task::Removed => TaskView::Removed,
            Task::Moved => TaskView::Moved,
        }
    }
}

/// Where an operation stands: at a command that has to be carried out
/// before it can go on, or at its end.
#[derive(Debug, PartialEq, Eq)]
pub enum Step {
    /// Carry out the command and hand the reply, with the task, to
    /// `RaceService::resume`.
    Perform(Command, Task),
    /// The operation is over, with this result.
    Finish(Result<Outcome, ServiceError>),
}

/// The mathematical value of a [`Step`].
pub enum StepView {
    Perform(CommandView, TaskView),
    Finish(Result<OutcomeView, ServiceErrorView>),
}

impl View for Step {
    type V = StepView;

    open spec fn view(&self) -> StepView {
        match self {
            Step::Perform(command, task) => StepView::Perform(command@, task@),
            Step::Finish(Ok(outcome)) => StepView::Finish(Ok(outcome@)),
            Step::Finish(Err(error)) => StepView::Finish(Err(error@)),
        }
    }
}

} // verus!
