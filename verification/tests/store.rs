use std::collections::BTreeMap;

use races::race::error::RaceError;
use races::race::files::Directory;
use races::race::protocol::{
    Command, Document, Entry, FileDocument, Outcome, Reply, ServiceError, Step, Task,
};
use races::race::record::{Degrees, LatLon, Limits, Race, Timestamp, Waypoint};
use races::race::service::{Preparation, RaceService};

/// A disk in memory: the files of the two directories, and whether a move
/// replaces a file that is in its way.
struct Disk {
    active: BTreeMap<String, Document>,
    archived: BTreeMap<String, Document>,
    move_replaces: bool,
    commands: Vec<Command>,
}

impl Disk {
    fn new() -> Disk {
        Disk {
            active: BTreeMap::new(),
            archived: BTreeMap::new(),
            move_replaces: true,
            commands: Vec::new(),
        }
    }

    fn files(&mut self, directory: Directory) -> &mut BTreeMap<String, Document> {
        match directory {
            Directory::Active => &mut self.active,
            Directory::Archived => &mut self.archived,
        }
    }

    fn perform(&mut self, command: Command) -> Reply {
        self.commands.push(command.clone());
        match command {
            Command::Probe { directory, file } => {
                Reply::Probed(self.files(directory).contains_key(&file))
            }
            Command::Load { directory, file } => match self.files(directory).get(&file) {
                Some(document) => Reply::Loaded(document.clone()),
                None => Reply::Failed(String::from("no such file")),
            },
            Command::LoadAll { directory, files } => {
                let mut read = Vec::new();
                for file in files {
                    match self.files(directory).get(&file) {
                        Some(document) => read.push(FileDocument {
                            file,
                            document: document.clone(),
                        }),
                        None => return Reply::Failed(String::from("no such file")),
                    }
                }
                Reply::LoadedAll(read)
            }
            Command::Store {
                directory,
                file,
                race,
            } => {
                let mut kept = race;
                kept.id = None;
                kept.archived = false;
                self.files(directory).insert(file, Document::Race(kept));
                Reply::Stored
            }
            Command::Remove { directory, file } => match self.files(directory).remove(&file) {
                Some(_) => Reply::Removed,
                None => Reply::Failed(String::from("no such file")),
            },
            Command::Move { from, to, file } => {
                if !self.files(from).contains_key(&file) {
                    return Reply::Failed(String::from("no such file"));
                }
                if self.files(to).contains_key(&file) && !self.move_replaces {
                    return Reply::Failed(String::from("the destination exists"));
                }
                let document = self.files(from).remove(&file).unwrap();
                self.files(to).insert(file, document);
                Reply::Moved
            }
            Command::Scan { directory } => Reply::Scanned(
                self.files(directory)
                    .keys()
                    .map(|name| Entry {
                        name: name.clone(),
                        is_file: true,
                    })
                    .collect(),
            ),
        }
    }

    fn run(&mut self, service: &RaceService, first: Step) -> Result<Outcome, ServiceError> {
        let mut step = first;
        loop {
            match step {
                Step::Finish(result) => return result,
                Step::Perform(command, task) => {
                    let reply = self.perform(command);
                    step = service.resume(task, reply);
                }
            }
        }
    }
}

fn service() -> RaceService {
    RaceService::new(String::from("races"), String::from("archived"))
}

fn degrees(value: f64) -> Degrees {
    Degrees::from_bits(value.to_bits())
}

fn point(lat: f64, lon: f64) -> LatLon {
    LatLon {
        lat: degrees(lat),
        lon: degrees(lon),
    }
}

fn race(id: &str, start: Option<i64>) -> Race {
    Race {
        id: Some(String::from(id)),
        race_id: Some(String::from("540.1")),
        archived: false,
        name: format!("Race {}", id),
        short_name: None,
        boat: String::from("imoca"),
        start_time: start.map(Timestamp::from_seconds),
        end_time: None,
        start: point(46.5, -1.8),
        waypoints: vec![
            Waypoint {
                name: String::from("1"),
                radius: None,
                latlons: vec![point(40.0, -10.0), point(41.0, -10.5)],
                to_avoid: Some(vec![vec![vec![degrees(-9.0), degrees(39.0)]]]),
            },
            Waypoint {
                name: String::from("end"),
                radius: Some(5),
                latlons: vec![point(46.5, -1.8)],
                to_avoid: None,
            },
        ],
        ice_limits: Some(Limits {
            north: vec![point(60.0, 0.0)],
            south: vec![point(-60.0, 0.0), point(-61.0, 10.0)],
            max_lat: degrees(60.0),
            min_lat: degrees(-61.0),
        }),
    }
}

fn ids(outcome: Result<Outcome, ServiceError>) -> Vec<String> {
    match outcome {
        Ok(Outcome::Listed(races)) => races.into_iter().map(|race| race.id.unwrap()).collect(),
        other => panic!("not a listing: {:?}", other),
    }
}

fn not_found(id: &str) -> Result<Outcome, ServiceError> {
    Err(ServiceError::Race(RaceError::NotFound(String::from(id))))
}

fn already_exists(id: &str) -> Result<Outcome, ServiceError> {
    Err(ServiceError::Race(RaceError::AlreadyExists(String::from(
        id,
    ))))
}

#[test]
fn listing_puts_the_later_start_first() {
    let service = service();
    let mut disk = Disk::new();
    // 2024-01-10T00:00:00Z and 2024-02-01T00:00:00Z
    let first = service.create(race("race1", Some(1_704_844_800)));
    assert_eq!(disk.run(&service, first), Ok(Outcome::Done));
    let second = service.create(race("race2", Some(1_706_745_600)));
    assert_eq!(disk.run(&service, second), Ok(Outcome::Done));
    let listing = disk.run(&service, service.list(None));
    assert_eq!(ids(listing), vec!["race2", "race1"]);
}

#[test]
fn delete_of_a_missing_record_on_an_empty_store_is_not_found() {
    let service = service();
    let mut disk = Disk::new();
    let result = disk.run(&service, service.delete(String::from("missing")));
    assert_eq!(result, not_found("missing"));
    assert!(disk.active.is_empty());
    assert!(disk.archived.is_empty());
}

#[test]
fn created_record_is_read_back_field_for_field() {
    let service = service();
    let mut disk = Disk::new();
    let mut written = race("vendee", Some(1_704_844_800));
    written.archived = true;
    let created = service.create(written.clone());
    assert_eq!(disk.run(&service, created), Ok(Outcome::Done));
    let read = disk.run(&service, service.get(String::from("vendee")));
    let mut expected = written;
    expected.archived = false;
    assert_eq!(read, Ok(Outcome::Found(Some(expected))));
}

#[test]
fn create_writes_the_file_named_after_the_identifier() {
    let service = service();
    let mut disk = Disk::new();
    let created = service.create(race("vendee", None));
    assert_eq!(disk.run(&service, created), Ok(Outcome::Done));
    assert_eq!(
        disk.active.keys().cloned().collect::<Vec<String>>(),
        vec!["vendee.yaml"]
    );
    assert!(disk.archived.is_empty());
    assert_eq!(disk.commands.len(), 2);
    assert_eq!(
        disk.commands[0],
        Command::Probe {
            directory: Directory::Active,
            file: String::from("vendee.yaml")
        }
    );
}

#[test]
fn second_create_with_the_same_identifier_already_exists() {
    let service = service();
    let mut disk = Disk::new();
    let first = service.create(race("race1", Some(10)));
    assert_eq!(disk.run(&service, first), Ok(Outcome::Done));
    let second = service.create(race("race1", Some(20)));
    assert_eq!(disk.run(&service, second), already_exists("race1"));
    let read = disk.run(&service, service.get(String::from("race1")));
    assert_eq!(read, Ok(Outcome::Found(Some(race("race1", Some(10))))));
}

#[test]
fn create_without_an_identifier_is_refused() {
    let service = service();
    let mut disk = Disk::new();
    let mut nameless = race("x", None);
    nameless.id = None;
    let result = disk.run(&service, service.create(nameless));
    assert_eq!(
        result,
        Err(ServiceError::Race(RaceError::IdIsMandatory()))
    );
    assert!(disk.commands.is_empty());
}

#[test]
fn archive_then_get_gives_an_archived_record() {
    let service = service();
    let mut disk = Disk::new();
    let created = service.create(race("race1", Some(10)));
    assert_eq!(disk.run(&service, created), Ok(Outcome::Done));
    let archived = disk.run(&service, service.archive(String::from("race1")));
    assert_eq!(archived, Ok(Outcome::Done));
    assert!(disk.active.is_empty());
    let mut expected = race("race1", Some(10));
    expected.archived = true;
    let read = disk.run(&service, service.get(String::from("race1")));
    assert_eq!(read, Ok(Outcome::Found(Some(expected))));
}

#[test]
fn restore_then_get_gives_an_active_record() {
    let service = service();
    let mut disk = Disk::new();
    let created = service.create(race("race1", Some(10)));
    assert_eq!(disk.run(&service, created), Ok(Outcome::Done));
    assert_eq!(
        disk.run(&service, service.archive(String::from("race1"))),
        Ok(Outcome::Done)
    );
    assert_eq!(
        disk.run(&service, service.restore(String::from("race1"))),
        Ok(Outcome::Done)
    );
    assert!(disk.archived.is_empty());
    let read = disk.run(&service, service.get(String::from("race1")));
    assert_eq!(read, Ok(Outcome::Found(Some(race("race1", Some(10))))));
}

#[test]
fn archive_of_a_record_that_is_not_active_is_not_found() {
    let service = service();
    let mut disk = Disk::new();
    disk.archived.insert(
        String::from("race1.yaml"),
        Document::Race(race("race1", None)),
    );
    let result = disk.run(&service, service.archive(String::from("race1")));
    assert_eq!(result, not_found("race1"));
    assert_eq!(disk.archived.len(), 1);
}

#[test]
fn restore_of_a_record_that_is_not_archived_is_not_found() {
    let service = service();
    let mut disk = Disk::new();
    disk.active.insert(
        String::from("race1.yaml"),
        Document::Race(race("race1", None)),
    );
    let result = disk.run(&service, service.restore(String::from("race1")));
    assert_eq!(result, not_found("race1"));
    assert_eq!(disk.active.len(), 1);
}

#[test]
fn restore_onto_an_active_record_already_exists() {
    let service = service();
    let mut disk = Disk::new();
    disk.active.insert(
        String::from("race1.yaml"),
        Document::Race(race("race1", Some(1))),
    );
    disk.archived.insert(
        String::from("race1.yaml"),
        Document::Race(race("race1", Some(2))),
    );
    let result = disk.run(&service, service.restore(String::from("race1")));
    assert_eq!(result, already_exists("race1"));
    assert_eq!(disk.active.len(), 1);
    assert_eq!(disk.archived.len(), 1);
}

#[test]
fn archive_onto_an_archived_record_is_left_to_the_disk() {
    let service = service();
    let mut replacing = Disk::new();
    replacing.active.insert(
        String::from("race1.yaml"),
        Document::Race(race("race1", Some(1))),
    );
    replacing.archived.insert(
        String::from("race1.yaml"),
        Document::Race(race("race1", Some(2))),
    );
    let result = replacing.run(&service, service.archive(String::from("race1")));
    assert_eq!(result, Ok(Outcome::Done));
    let mut expected = race("race1", Some(1));
    expected.archived = true;
    assert_eq!(
        replacing.run(&service, service.get(String::from("race1"))),
        Ok(Outcome::Found(Some(expected)))
    );

    let mut refusing = Disk::new();
    refusing.move_replaces = false;
    refusing.active.insert(
        String::from("race1.yaml"),
        Document::Race(race("race1", Some(1))),
    );
    refusing.archived.insert(
        String::from("race1.yaml"),
        Document::Race(race("race1", Some(2))),
    );
    let result = refusing.run(&service, service.archive(String::from("race1")));
    assert_eq!(
        result,
        Err(ServiceError::Storage(String::from(
            "the destination exists"
        )))
    );
    assert_eq!(refusing.active.len(), 1);
}

#[test]
fn listing_puts_records_without_a_start_last_and_keeps_ties_in_order() {
    let service = service();
    let mut disk = Disk::new();
    for (id, start) in [
        ("a", None),
        ("b", Some(50)),
        ("c", Some(-7)),
        ("d", Some(50)),
        ("e", None),
        ("f", Some(i64::MIN)),
        ("g", Some(i64::MAX)),
    ] {
        let created = service.create(race(id, start));
        assert_eq!(disk.run(&service, created), Ok(Outcome::Done));
    }
    let listing = disk.run(&service, service.list(Some(false)));
    assert_eq!(ids(listing), vec!["g", "b", "d", "c", "f", "a", "e"]);
}

#[test]
fn listing_reads_the_directory_that_was_asked_for() {
    let service = service();
    let mut disk = Disk::new();
    let created = service.create(race("kept", Some(1)));
    assert_eq!(disk.run(&service, created), Ok(Outcome::Done));
    let created = service.create(race("retired", Some(2)));
    assert_eq!(disk.run(&service, created), Ok(Outcome::Done));
    assert_eq!(
        disk.run(&service, service.archive(String::from("retired"))),
        Ok(Outcome::Done)
    );
    assert_eq!(ids(disk.run(&service, service.list(None))), vec!["kept"]);
    assert_eq!(
        ids(disk.run(&service, service.list(Some(false)))),
        vec!["kept"]
    );
    let archived = disk.run(&service, service.list(Some(true)));
    let mut expected = race("retired", Some(2));
    expected.archived = true;
    assert_eq!(archived, Ok(Outcome::Listed(vec![expected])));
}

#[test]
fn listing_takes_identifier_and_flag_from_the_file_not_from_its_content() {
    let service = service();
    let scanned = service.resume(
        Task::ListScanned { archived: true },
        Reply::Scanned(vec![
            Entry {
                name: String::from("a.b.yaml"),
                is_file: true,
            },
            Entry {
                name: String::from("folder.yaml"),
                is_file: false,
            },
            Entry {
                name: String::from("notes.txt"),
                is_file: true,
            },
            Entry {
                name: String::from(".yaml"),
                is_file: true,
            },
            Entry {
                name: String::from("broken.yaml"),
                is_file: true,
            },
            Entry {
                name: String::from("empty.yaml"),
                is_file: true,
            },
        ]),
    );
    let task = match scanned {
        Step::Perform(command, task) => {
            assert_eq!(
                command,
                Command::LoadAll {
                    directory: Directory::Archived,
                    files: vec![
                        String::from("a.b.yaml"),
                        String::from("broken.yaml"),
                        String::from("empty.yaml")
                    ],
                }
            );
            task
        }
        other => panic!("the listing ended early: {:?}", other),
    };
    let stored = race("something-else", Some(3));
    let mut expected = stored.clone();
    expected.id = Some(String::from("a.b"));
    expected.archived = true;
    let listed = service.resume(
        task,
        Reply::LoadedAll(vec![
            FileDocument {
                file: String::from("a.b.yaml"),
                document: Document::Race(stored),
            },
            FileDocument {
                file: String::from("broken.yaml"),
                document: Document::Malformed,
            },
            FileDocument {
                file: String::from("empty.yaml"),
                document: Document::Empty,
            },
        ]),
    );
    assert_eq!(
        listed,
        Step::Finish(Ok(Outcome::Listed(vec![expected])))
    );
}

#[test]
fn update_under_a_new_identifier_moves_the_record() {
    let service = service();
    let mut disk = Disk::new();
    let created = service.create(race("old", Some(10)));
    assert_eq!(disk.run(&service, created), Ok(Outcome::Done));
    let mut changed = race("new", Some(99));
    changed.boat = String::from("figaro");
    let updated = service.update(String::from("old"), changed.clone());
    assert_eq!(disk.run(&service, updated), Ok(Outcome::Done));
    assert_eq!(
        disk.active.keys().cloned().collect::<Vec<String>>(),
        vec!["new.yaml"]
    );
    assert_eq!(
        disk.run(&service, service.get(String::from("old"))),
        Ok(Outcome::Found(None))
    );
    assert_eq!(
        disk.run(&service, service.get(String::from("new"))),
        Ok(Outcome::Found(Some(changed)))
    );
}

#[test]
fn update_in_place_replaces_the_content() {
    let service = service();
    let mut disk = Disk::new();
    let created = service.create(race("race1", Some(10)));
    assert_eq!(disk.run(&service, created), Ok(Outcome::Done));
    let changed = race("race1", Some(11));
    let updated = service.update(String::from("race1"), changed.clone());
    assert_eq!(disk.run(&service, updated), Ok(Outcome::Done));
    assert_eq!(
        disk.run(&service, service.get(String::from("race1"))),
        Ok(Outcome::Found(Some(changed)))
    );
    let mut nameless = race("race1", Some(12));
    nameless.id = None;
    let updated = service.update(String::from("race1"), nameless);
    assert_eq!(disk.run(&service, updated), Ok(Outcome::Done));
    assert_eq!(
        disk.run(&service, service.get(String::from("race1"))),
        Ok(Outcome::Found(Some(race("race1", Some(12)))))
    );
    assert_eq!(disk.active.len(), 1);
}

#[test]
fn update_of_a_record_that_is_not_active_is_not_found() {
    let service = service();
    let mut disk = Disk::new();
    disk.archived.insert(
        String::from("race1.yaml"),
        Document::Race(race("race1", None)),
    );
    let updated = service.update(String::from("race1"), race("race1", Some(1)));
    assert_eq!(disk.run(&service, updated), not_found("race1"));
    assert!(disk.active.is_empty());
}

#[test]
fn delete_takes_the_active_record_first() {
    let service = service();
    let mut disk = Disk::new();
    disk.active.insert(
        String::from("race1.yaml"),
        Document::Race(race("race1", Some(1))),
    );
    disk.archived.insert(
        String::from("race1.yaml"),
        Document::Race(race("race1", Some(2))),
    );
    assert_eq!(
        disk.run(&service, service.delete(String::from("race1"))),
        Ok(Outcome::Done)
    );
    assert!(disk.active.is_empty());
    assert_eq!(disk.archived.len(), 1);
    assert_eq!(
        disk.run(&service, service.delete(String::from("race1"))),
        Ok(Outcome::Done)
    );
    assert!(disk.archived.is_empty());
    assert_eq!(
        disk.run(&service, service.delete(String::from("race1"))),
        not_found("race1")
    );
}

#[test]
fn get_of_a_missing_record_finds_nothing() {
    let service = service();
    let mut disk = Disk::new();
    assert_eq!(
        disk.run(&service, service.get(String::from("nobody"))),
        Ok(Outcome::Found(None))
    );
    assert_eq!(disk.commands.len(), 2);
}

#[test]
fn get_of_an_empty_or_malformed_file() {
    let service = service();
    let mut disk = Disk::new();
    disk.active
        .insert(String::from("empty.yaml"), Document::Empty);
    disk.archived
        .insert(String::from("broken.yaml"), Document::Malformed);
    assert_eq!(
        disk.run(&service, service.get(String::from("empty"))),
        Ok(Outcome::Found(None))
    );
    assert_eq!(
        disk.run(&service, service.get(String::from("broken"))),
        Err(ServiceError::Storage(String::from(
            "the file does not hold a race"
        )))
    );
}

#[test]
fn failure_of_the_disk_ends_the_operation_with_its_reason() {
    let service = service();
    let step = service.resume(
        Task::Stored,
        Reply::Failed(String::from("disk full")),
    );
    assert_eq!(
        step,
        Step::Finish(Err(ServiceError::Storage(String::from("disk full"))))
    );
    let step = service.resume(
        Task::UpdateRemoved {
            race_id: String::from("new"),
            race: race("new", None),
        },
        Reply::Failed(String::from("permission denied")),
    );
    assert_eq!(
        step,
        Step::Finish(Err(ServiceError::Storage(String::from(
            "permission denied"
        ))))
    );
}

#[test]
fn reply_that_does_not_answer_the_command_ends_the_operation() {
    let service = service();
    let expected = Step::Finish(Err(ServiceError::Storage(String::from(
        "the reply does not answer the command",
    ))));
    assert_eq!(service.resume(Task::Stored, Reply::Moved), expected);
    assert_eq!(service.resume(Task::Moved, Reply::Probed(true)), expected);
    assert_eq!(
        service.resume(
            Task::GetActive {
                race_id: String::from("x")
            },
            Reply::Stored
        ),
        expected
    );
    assert_eq!(
        service.resume(Task::ListLoaded { archived: false }, Reply::Scanned(vec![])),
        expected
    );
}

#[test]
fn paths_and_preparation_of_the_directories() {
    let service = service();
    assert_eq!(service.path(Directory::Active), "races");
    assert_eq!(service.path(Directory::Archived), "archived");
    assert_eq!(RaceService::prepare(false, false), Preparation::Create);
    assert_eq!(RaceService::prepare(false, true), Preparation::Create);
    assert_eq!(RaceService::prepare(true, true), Preparation::Ready);
    assert_eq!(
        RaceService::prepare(true, false),
        Preparation::NotADirectory
    );
}

#[test]
fn get_id_gives_the_identifier_or_asks_for_one() {
    let service = service();
    assert_eq!(
        service.get_id(&race("race1", None)),
        Ok(String::from("race1"))
    );
    let mut nameless = race("race1", None);
    nameless.id = None;
    assert_eq!(service.get_id(&nameless), Err(RaceError::IdIsMandatory()));
}

#[test]
fn update_under_a_new_identifier_leaves_an_archived_namesake_alone() {
    let service = service();
    let mut disk = Disk::new();
    let created = service.create(race("old", Some(10)));
    assert_eq!(disk.run(&service, created), Ok(Outcome::Done));
    disk.archived.insert(
        String::from("old.yaml"),
        Document::Race(race("old", Some(5))),
    );
    let updated = service.update(String::from("old"), race("new", Some(99)));
    assert_eq!(disk.run(&service, updated), Ok(Outcome::Done));
    let mut archived = race("old", Some(5));
    archived.archived = true;
    assert_eq!(
        disk.run(&service, service.get(String::from("old"))),
        Ok(Outcome::Found(Some(archived)))
    );
}

#[test]
fn archive_then_restore_puts_everything_back() {
    let service = service();
    let mut disk = Disk::new();
    let created = service.create(race("race1", Some(10)));
    assert_eq!(disk.run(&service, created), Ok(Outcome::Done));
    let before = disk.active.clone();
    assert_eq!(
        disk.run(&service, service.archive(String::from("race1"))),
        Ok(Outcome::Done)
    );
    assert_eq!(disk.archived, before);
    assert_eq!(
        disk.run(&service, service.restore(String::from("race1"))),
        Ok(Outcome::Done)
    );
    assert_eq!(disk.active, before);
    assert!(disk.archived.is_empty());
}

#[test]
fn no_operation_asks_for_more_than_three_commands() {
    let service = service();
    let mut disk = Disk::new();
    disk.archived.insert(
        String::from("race1.yaml"),
        Document::Race(race("race1", Some(1))),
    );
    let steps = [
        service.list(None),
        service.get(String::from("race1")),
        service.create(race("race2", None)),
        service.update(String::from("race2"), race("race3", None)),
        service.restore(String::from("race1")),
        service.archive(String::from("race1")),
        service.delete(String::from("race1")),
        service.delete(String::from("race1")),
    ];
    for step in steps {
        disk.commands.clear();
        let _ = disk.run(&service, step);
        assert!(disk.commands.len() <= 3);
    }
}
