use races::api::init;
use races::api::v1::model::leg::{Boat, Checkpoint, Display, End, Leg, RaceId, Side, Start};
use races::api::v1::model::race::Race;
use races::api::v1::{
    archive, archive_response, delete, delete_response, error_status, get, get_response, list,
    list_response, post, post_leg, post_leg_response, post_response, put, put_response, restore,
    restore_response, routes, Handler, Method, Status,
};
use races::config::{Config, ServiceConfig};
use races::polar::{Answer, Polar, PolarService};
use races::race::error::RaceError;
use races::race::files::Directory;
use races::race::protocol::{Command, Outcome, ServiceError, Step, Task};
use races::race::record::{Degrees, LatLon, Limits, Timestamp, Waypoint};
use races::race::service::RaceService;

fn service() -> RaceService {
    RaceService::new(String::from("races"), String::from("archived"))
}

fn point(lat: f64, lon: f64) -> LatLon {
    LatLon {
        lat: Degrees::from_bits(lat.to_bits()),
        lon: Degrees::from_bits(lon.to_bits()),
    }
}

fn record(id: Option<&str>) -> races::race::record::Race {
    races::race::record::Race {
        id: id.map(String::from),
        race_id: Some(String::from("12.3")),
        archived: true,
        name: String::from("Route du Rhum"),
        short_name: Some(String::from("RDR")),
        boat: String::from("ultim"),
        start_time: Some(Timestamp::from_seconds(1_667_739_600)),
        end_time: None,
        start: point(48.6, -2.0),
        waypoints: vec![Waypoint {
            name: String::from("end"),
            radius: Some(3),
            latlons: vec![point(16.2, -61.5)],
            to_avoid: None,
        }],
        ice_limits: None,
    }
}

fn api_race(id: &str) -> Race {
    Race {
        id: String::from(id),
        race_id: Some(String::from("12.3")),
        archived: true,
        name: String::from("Route du Rhum"),
        short_name: Some(String::from("RDR")),
        boat: String::from("ultim"),
        start_time: Some(Timestamp::from_seconds(1_667_739_600)),
        end_time: None,
        start: point(48.6, -2.0),
        waypoints: vec![Waypoint {
            name: String::from("end"),
            radius: Some(3),
            latlons: vec![point(16.2, -61.5)],
            to_avoid: None,
        }],
        ice_limits: None,
    }
}

fn leg() -> Leg {
    Leg {
        id: RaceId {
            race_id: 540,
            num: Some(2),
        },
        name: String::from("Vendée Globe 2024"),
        start: Start {
            lat: Degrees::from_bits(46.5_f64.to_bits()),
            lon: Degrees::from_bits((-1.8_f64).to_bits()),
            date: 1_731_240_120_750,
        },
        end: End {
            lat: Degrees::from_bits(46.4_f64.to_bits()),
            lon: Degrees::from_bits((-1.9_f64).to_bits()),
            date: 1_738_000_000_250,
            radius: 4,
        },
        checkpoints: vec![
            Checkpoint {
                start: point(1.0, 2.0),
                end: point(3.0, 4.0),
                display: Display::Gate,
                side: Side::Port,
            },
            Checkpoint {
                start: point(5.0, 6.0),
                end: point(7.0, 8.0),
                display: Display::Hidden,
                side: Side::Port,
            },
            Checkpoint {
                start: point(9.0, 10.0),
                end: point(11.0, 12.0),
                display: Display::Buoy,
                side: Side::Stbd,
            },
        ],
        ice_limits: Limits {
            north: vec![],
            south: vec![point(-50.0, 0.0), point(-52.0, 20.0)],
            max_lat: Degrees::from_bits(0),
            min_lat: Degrees::from_bits((-52.0_f64).to_bits()),
        },
        boat: Boat { polar_id: 7 },
    }
}

fn derived(boat: &str) -> races::race::record::Race {
    races::race::record::Race {
        id: Some(String::from("vende-globe-2024")),
        race_id: Some(String::from("540.2")),
        archived: false,
        name: String::from("Vendée Globe 2024"),
        short_name: Some(String::from("Vendée Globe 2024")),
        boat: String::from(boat),
        start_time: Some(Timestamp::from_seconds(1_731_240_120)),
        end_time: Some(Timestamp::from_seconds(1_738_000_000)),
        start: point(46.5, -1.8),
        waypoints: vec![
            Waypoint {
                name: String::from("1"),
                radius: None,
                latlons: vec![point(1.0, 2.0), point(3.0, 4.0)],
                to_avoid: None,
            },
            Waypoint {
                name: String::from("2"),
                radius: None,
                latlons: vec![point(11.0, 12.0), point(9.0, 10.0)],
                to_avoid: None,
            },
            Waypoint {
                name: String::from("end"),
                radius: Some(4),
                latlons: vec![point(46.4, -1.9)],
                to_avoid: None,
            },
        ],
        ice_limits: Some(Limits {
            north: vec![],
            south: vec![point(-50.0, 0.0), point(-52.0, 20.0)],
            max_lat: Degrees::from_bits(0),
            min_lat: Degrees::from_bits((-52.0_f64).to_bits()),
        }),
    }
}

fn storage() -> Result<Outcome, ServiceError> {
    Err(ServiceError::Storage(String::from("disk full")))
}

fn not_found() -> Result<Outcome, ServiceError> {
    Err(ServiceError::Race(RaceError::NotFound(String::from("x"))))
}

fn already_exists() -> Result<Outcome, ServiceError> {
    Err(ServiceError::Race(RaceError::AlreadyExists(String::from(
        "x",
    ))))
}

fn id_is_mandatory() -> Result<Outcome, ServiceError> {
    Err(ServiceError::Race(RaceError::IdIsMandatory()))
}

#[test]
fn routes_of_the_interface() {
    let routes = routes();
    let table: Vec<(Method, &str, Handler)> = routes
        .iter()
        .map(|route| (route.method, route.path.as_str(), route.handler))
        .collect();
    assert_eq!(
        table,
        vec![
            (Method::Get, "/races?<archived>", Handler::List),
            (Method::Get, "/races/<race_id>", Handler::Get),
            (Method::Post, "/races", Handler::Post),
            (Method::Put, "/races/<race_id>", Handler::Put),
            (Method::Delete, "/races/<race_id>", Handler::Delete),
            (Method::Post, "/races/<race_id>/archive", Handler::Archive),
            (Method::Post, "/races/<race_id>/restore", Handler::Restore),
            (Method::Post, "/legs", Handler::PostLeg),
        ]
    );
}

#[test]
fn init_mounts_the_routes_below_their_path() {
    let api = init();
    assert_eq!(api.base, "/races/api/v1");
    assert_eq!(api.routes, routes());
}

#[test]
fn statuses_of_failures() {
    assert_eq!(
        error_status(&ServiceError::Race(RaceError::NotFound(String::from("x")))),
        Status { code: 404 }
    );
    assert_eq!(
        error_status(&ServiceError::Race(RaceError::AlreadyExists(
            String::from("x")
        ))),
        Status { code: 409 }
    );
    assert_eq!(
        error_status(&ServiceError::Race(RaceError::IdIsMandatory())),
        Status { code: 400 }
    );
    assert_eq!(
        error_status(&ServiceError::Storage(String::from("disk full"))),
        Status { code: 500 }
    );
}

#[test]
fn statuses_of_changes() {
    assert_eq!(post_response(&Ok(Outcome::Done)).code, 201);
    assert_eq!(post_response(&already_exists()).code, 409);
    assert_eq!(post_response(&id_is_mandatory()).code, 400);
    assert_eq!(post_response(&storage()).code, 500);
    assert_eq!(archive_response(&Ok(Outcome::Done)).code, 200);
    assert_eq!(archive_response(&not_found()).code, 404);
    assert_eq!(archive_response(&storage()).code, 500);
    assert_eq!(restore_response(&Ok(Outcome::Done)).code, 201);
    assert_eq!(restore_response(&not_found()).code, 404);
    assert_eq!(restore_response(&already_exists()).code, 409);
    assert_eq!(restore_response(&storage()).code, 500);
    assert_eq!(put_response(&Ok(Outcome::Done)).code, 204);
    assert_eq!(put_response(&not_found()).code, 404);
    assert_eq!(put_response(&storage()).code, 500);
    assert_eq!(delete_response(&Ok(Outcome::Done)).code, 204);
    assert_eq!(delete_response(&not_found()).code, 404);
    assert_eq!(delete_response(&storage()).code, 500);
    assert_eq!(post_leg_response(&Ok(Outcome::Done)).code, 201);
    assert_eq!(post_leg_response(&already_exists()).code, 409);
    assert_eq!(post_leg_response(&storage()).code, 500);
}

#[test]
fn answer_of_a_listing() {
    let listed = Ok(Outcome::Listed(vec![record(Some("b")), record(Some("a"))]));
    assert_eq!(list_response(listed), Ok(vec![api_race("b"), api_race("a")]));
    assert_eq!(list_response(Ok(Outcome::Listed(vec![]))), Ok(vec![]));
    assert_eq!(list_response(storage()), Err(Status { code: 500 }));
    assert_eq!(list_response(not_found()), Err(Status { code: 500 }));
    assert_eq!(
        list_response(Ok(Outcome::Done)),
        Err(Status { code: 500 })
    );
    assert_eq!(
        list_response(Ok(Outcome::Listed(vec![record(Some("a")), record(None)]))),
        Err(Status { code: 500 })
    );
}

#[test]
fn answer_of_a_lookup() {
    assert_eq!(
        get_response(Ok(Outcome::Found(Some(record(Some("a")))))),
        Ok(api_race("a"))
    );
    assert_eq!(
        get_response(Ok(Outcome::Found(None))),
        Err(Status { code: 404 })
    );
    assert_eq!(get_response(storage()), Err(Status { code: 500 }));
    assert_eq!(
        get_response(Ok(Outcome::Found(Some(record(None))))),
        Err(Status { code: 500 })
    );
    assert_eq!(get_response(Ok(Outcome::Done)), Err(Status { code: 500 }));
}

#[test]
fn handlers_start_the_operation_of_the_store() {
    let service = service();
    assert_eq!(list(&service, Some(true)), service.list(Some(true)));
    assert_eq!(
        get(&service, String::from("a")),
        service.get(String::from("a"))
    );
    assert_eq!(
        post(&service, api_race("a")),
        service.create(record(Some("a")))
    );
    assert_eq!(
        put(&service, String::from("a"), api_race("b")),
        service.update(String::from("a"), record(Some("b")))
    );
    assert_eq!(
        delete(&service, String::from("a")),
        service.delete(String::from("a"))
    );
    assert_eq!(
        archive(&service, String::from("a")),
        service.archive(String::from("a"))
    );
    assert_eq!(
        restore(&service, String::from("a")),
        service.restore(String::from("a"))
    );
    assert_eq!(
        restore(&service, String::from("a")),
        Step::Perform(
            Command::Probe {
                directory: Directory::Archived,
                file: String::from("a.yaml")
            },
            Task::RestoreArchived {
                race_id: String::from("a")
            }
        )
    );
}

#[test]
fn race_of_the_interface_is_the_record_with_its_identifier() {
    assert_eq!(Race::from(record(Some("a"))), api_race("a"));
    assert_eq!(api_race("a").into(), record(Some("a")));
}

#[test]
fn race_id_label() {
    assert_eq!(
        RaceId {
            race_id: 540,
            num: None
        }
        .into(),
        "540"
    );
    assert_eq!(
        RaceId {
            race_id: 540,
            num: Some(2)
        }
        .into(),
        "540.2"
    );
    assert_eq!(
        RaceId {
            race_id: 0,
            num: Some(0)
        }
        .into(),
        "0.0"
    );
    assert_eq!(
        RaceId {
            race_id: 65_535,
            num: Some(255)
        }
        .into(),
        "65535.255"
    );
}

#[test]
fn leg_becomes_a_race() {
    assert_eq!(leg().clean_name(), "vende-globe-2024");
    assert_eq!(leg().into(), derived(""));
    let mut renamed = derived("");
    renamed.id = Some(String::from("other"));
    assert_eq!(leg().into_race(String::from("other")), renamed);
    assert_eq!(leg().start.into(), point(46.5, -1.8));
    assert_eq!(leg().end.into(), point(46.4, -1.9));
}

#[test]
fn leg_without_checkpoints_has_the_finish_as_its_course() {
    let mut bare = leg();
    bare.checkpoints = Vec::new();
    let race = bare.into();
    assert_eq!(race.waypoints.len(), 1);
    assert_eq!(race.waypoints[0].name, "end");
    assert_eq!(race.waypoints[0].radius, Some(4));
}

#[test]
fn leg_before_the_epoch_starts_on_the_second_it_lies_in() {
    let mut early = leg();
    early.start.date = -1;
    early.end.date = -2_000;
    let race = early.into();
    assert_eq!(race.start_time, Some(Timestamp::from_seconds(-1)));
    assert_eq!(race.end_time, Some(Timestamp::from_seconds(-2)));
}

#[test]
fn post_leg_creates_the_race_with_the_boat() {
    let service = service();
    assert_eq!(
        post_leg(&service, leg(), Some(String::from("imoca"))),
        service.create(derived("imoca"))
    );
    assert_eq!(
        post_leg(&service, leg(), None),
        service.create(derived(""))
    );
}

#[test]
fn polar_lookup() {
    let polars = PolarService::new(ServiceConfig {
        url: String::from("http://polars.local/polars"),
    });
    assert_eq!(
        polars.request_url(7),
        "http://polars.local/polars?polar_id=7"
    );
    assert_eq!(
        polars.request_url(255),
        "http://polars.local/polars?polar_id=255"
    );
    assert_eq!(polars.request_url(0), "http://polars.local/polars?polar_id=0");
    assert!(PolarService::accepts(200));
    assert!(!PolarService::accepts(201));
    assert!(!PolarService::accepts(404));
    assert_eq!(
        polars.get_boat(Answer::Decoded(Polar {
            id: Some(String::from("imoca"))
        })),
        Some(String::from("imoca"))
    );
    assert_eq!(polars.get_boat(Answer::Decoded(Polar { id: None })), None);
    assert_eq!(polars.get_boat(Answer::Unreachable), None);
    assert_eq!(polars.get_boat(Answer::Refused(404)), None);
    assert_eq!(polars.get_boat(Answer::Undecodable), None);
}

#[test]
fn default_configuration_is_empty() {
    let config = Config::default();
    assert_eq!(config.races_dir, "");
    assert_eq!(config.archived_dir, "");
    assert_eq!(config.polars, ServiceConfig::default());
    assert_eq!(config.polars.url, "");
}
