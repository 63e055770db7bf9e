//! The first version of the interface: its routes, what each of them asks
//! of the store, and the status with which it answers.

pub mod model;

use crate::api::v1::model::leg::{Leg, LegView};
use crate::api::v1::model::race::Race;
use crate::race::error::{RaceError, RaceErrorView};
use crate::race::identifier::clean_name_of;
use crate::race::protocol::{Outcome, OutcomeView, ServiceError, ServiceErrorView, Step};
use crate::race::record::RaceView;
use crate::race::service::{
    archive_step, create_step, delete_step, get_step, list_step, restore_step, update_step,
    RaceService,
};
use vstd::prelude::*;
use vstd::string::*;

verus! {

/// The request went well.
pub const OK: u16 = 200;

/// The request went well and made something new.
pub const CREATED: u16 = 201;

/// The request went well and there is nothing to send back.
pub const NO_CONTENT: u16 = 204;

/// The request lacks something.
pub const BAD_REQUEST: u16 = 400;

/// What was asked for is not there.
pub const NOT_FOUND: u16 = 404;

/// What was to be made is there already.
pub const CONFLICT: u16 = 409;

/// The service failed.
pub const INTERNAL_SERVER_ERROR: u16 = 500;

/// The status of an answer.
#[derive(Debug, Clone, Copy, PartialEq, Eq, Structural)]
pub struct Status {
    pub code: u16,
}

/// The verb of a request.
#[derive(Debug, Clone, Copy, PartialEq, Eq, Structural)]
pub enum Method {
    Get,
    Post,
    Put,
    Delete,
}

/// What a route leads to.
#[derive(Debug, Clone, Copy, PartialEq, Eq, Structural)]
pub enum Handler {
    List,
    Get,
    Post,
    Put,
    Delete,
    Archive,
    Restore,
    PostLeg,
}

/// A route of the interface: requests with this verb and a path of this
/// form go to this handler. In the path, a name in angle brackets stands
/// for a segment of the request; behind a question mark, for a parameter.
#[derive(Debug, Clone, PartialEq, Eq)]
pub struct Route {
    pub method: Method,
    pub path: String,
    pub handler: Handler,
}

/// The mathematical value of a [`Route`].
pub struct RouteView {
    pub method: Method,
    pub path: Seq<char>,
    pub handler: Handler,
}

impl DeepView for Route {
    type V = RouteView;

    open spec fn deep_view(&self) -> RouteView {
        RouteView { method: self.method, path: self.path@, handler: self.handler }
    }
}

impl View for Route {
    type V = RouteView;

    open spec fn view(&self) -> RouteView {
        self.deep_view()
    }
}

/// The routes of the interface.
pub open spec fn route_table() -> Seq<RouteView> {
    seq![
        RouteView { method: Method::Get, path: "/races?<archived>"@, handler: Handler::List },
        RouteView { method: Method::Get, path: "/races/<race_id>"@, handler: Handler::Get },
        RouteView { method: Method::Post, path: "/races"@, handler: Handler::Post },
        RouteView { method: Method::Put, path: "/races/<race_id>"@, handler: Handler::Put },
        RouteView { method: Method::Delete, path: "/races/<race_id>"@, handler: Handler::Delete },
        RouteView {
            method: Method::Post,
            path: "/races/<race_id>/archive"@,
            handler: Handler::Archive,
        },
        RouteView {
            method: Method::Post,
            path: "/races/<race_id>/restore"@,
            handler: Handler::Restore,
        },
        RouteView { method: Method::Post, path: "/legs"@, handler: Handler::PostLeg },
    ]
}

/// No two routes answer to the same verb and path.
pub proof fn routes_do_not_collide()
    ensures
        forall|i: int, j: int|
            0 <= i < j < route_table().len() ==> (#[trigger] route_table()[i]).method != (
            #[trigger] route_table()[j]).method || route_table()[i].path != route_table()[j].path,
{
    reveal_strlit("/races?<archived>");
    reveal_strlit("/races/<race_id>");
    reveal_strlit("/races");
    reveal_strlit("/races/<race_id>/archive");
    reveal_strlit("/races/<race_id>/restore");
    reveal_strlit("/legs");
    let table = route_table();
    assert(table.len() == 8);
    assert(table[0].path.len() == 17 && table[0].method == Method::Get);
    assert(table[1].path.len() == 16 && table[1].method == Method::Get);
    assert(table[2].path.len() == 6 && table[2].method == Method::Post);
    assert(table[3].path.len() == 16 && table[3].method == Method::Put);
    assert(table[4].path.len() == 16 && table[4].method == Method::Delete);
    assert(table[5].path.len() == 24 && table[5].method == Method::Post);
    assert(table[6].path.len() == 24 && table[6].method == Method::Post);
    assert(table[7].path.len() == 5 && table[7].method == Method::Post);
    assert(table[5].path[17] == 'a');
    assert(table[6].path[17] == 'r');
}

fn route(method: Method, path: &str, handler: Handler) -> (route: Route)
    ensures
        route@ == (RouteView { method, path: path@, handler }),
{
    Route { method, path: String::from_str(path), handler }
}

/// The routes of the interface.
pub fn routes() -> (routes: Vec<Route>)
    ensures
        routes.deep_view() == route_table(),
{
    let mut routes: Vec<Route> = Vec::new();
    routes.push(route(Method::Get, "/races?<archived>", Handler::List));
    routes.push(route(Method::Get, "/races/<race_id>", Handler::Get));
    routes.push(route(Method::Post, "/races", Handler::Post));
    routes.push(route(Method::Put, "/races/<race_id>", Handler::Put));
    routes.push(route(Method::Delete, "/races/<race_id>", Handler::Delete));
    routes.push(route(Method::Post, "/races/<race_id>/archive", Handler::Archive));
    routes.push(route(Method::Post, "/races/<race_id>/restore", Handler::Restore));
    routes.push(route(Method::Post, "/legs", Handler::PostLeg));
    assert(routes.deep_view() =~= route_table());
    routes
}

/// The status that reports a failure of the store: a record that is not
/// there, an identifier that is taken, an identifier that is missing, and
/// for anything else a failure of the service.
pub open spec fn error_code(error: ServiceErrorView) -> u16 {
    match error {
        ServiceErrorView::Race(RaceErrorView::NotFound(_)) => NOT_FOUND,
        ServiceErrorView::Race(RaceErrorView::AlreadyExists(_)) => CONFLICT,
        ServiceErrorView::Race(RaceErrorView::IdIsMandatory) => BAD_REQUEST,
        ServiceErrorView::Storage(_) => INTERNAL_SERVER_ERROR,
    }
}

/// The status that reports a failure of the store.
pub fn error_status(error: &ServiceError) -> (status: Status)
    ensures
        status.code == error_code(error@),
{
    match error {
        ServiceError::Race(RaceError::NotFound(_)) => Status { code: NOT_FOUND },
        ServiceError::Race(RaceError::AlreadyExists(_)) => Status { code: CONFLICT },
        ServiceError::Race(RaceError::IdIsMandatory()) => Status { code: BAD_REQUEST },
        ServiceError::Storage(_) => Status { code: INTERNAL_SERVER_ERROR },
    }
}

/// The result of an operation, as mathematics sees it.
pub open spec fn result_view(result: Result<Outcome, ServiceError>) -> Result<
    OutcomeView,
    ServiceErrorView,
> {
    match result {
        Ok(outcome) => Ok(outcome@),
        Err(error) => Err(error@),
    }
}

/// The status that answers a change: `success` where the store made it,
/// else the status of the failure.
pub open spec fn change_code(result: Result<OutcomeView, ServiceErrorView>, success: u16) -> u16 {
    match result {
        Ok(_) => success,
        Err(error) => error_code(error),
    }
}

fn change_status(result: &Result<Outcome, ServiceError>, success: u16) -> (status: Status)
    ensures
        status.code == change_code(result_view(*result), success),
{
    match result {
        Ok(_) => Status { code: success },
        Err(error) => error_status(error),
    }
}

/// What a listing answers with: the races, or the status of a failure.
pub open spec fn list_answer(result: Result<OutcomeView, ServiceErrorView>) -> Result<
    Seq<RaceView>,
    u16,
> {
    match result {
        Ok(OutcomeView::Listed(races)) => if forall|i: int|
            0 <= i < races.len() ==> (#[trigger] races[i]).id is Some {
            Ok(races)
        } else {
            Err(INTERNAL_SERVER_ERROR)
        },
        _ => Err(INTERNAL_SERVER_ERROR),
    }
}

/// What a lookup answers with: the race, or the status that says why not.
pub open spec fn get_answer(result: Result<OutcomeView, ServiceErrorView>) -> Result<
    RaceView,
    u16,
> {
    match result {
        Ok(OutcomeView::Found(Some(race))) => if race.id is Some {
            Ok(race)
        } else {
            Err(INTERNAL_SERVER_ERROR)
        },
        Ok(OutcomeView::Found(None)) => Err(NOT_FOUND),
        _ => Err(INTERNAL_SERVER_ERROR),
    }
}

/// The answer of a handler that sends races back, as mathematics sees it.
pub open spec fn races_view(answer: Result<Vec<Race>, Status>) -> Result<Seq<RaceView>, u16> {
    match answer {
        Ok(races) => Ok(Seq::new(races.len() as nat, |i: int| races[i]@)),
        Err(status) => Err(status.code),
    }
}

/// The answer of a handler that sends a race back, as mathematics sees it.
pub open spec fn race_view(answer: Result<Race, Status>) -> Result<RaceView, u16> {
    match answer {
        Ok(race) => Ok(race@),
        Err(status) => Err(status.code),
    }
}

/// `GET /races?<archived>`: asks the store for a listing.
pub fn list(race_service: &RaceService, archived: Option<bool>) -> (step: Step)
    ensures
        step@ == list_step(archived),
{
    race_service.list(archived)
}

/// Answers a listing: the races in listing order, or a failure of the
/// service.
pub fn list_response(result: Result<Outcome, ServiceError>) -> (answer: Result<Vec<Race>, Status>)
    ensures
        races_view(answer) == list_answer(result_view(result)),
{
    match result {
        Ok(Outcome::Listed(listed)) => {
            let ghost all = listed.deep_view();
            let mut rest = listed;
            let mut reversed: Vec<Race> = Vec::new();
            while rest.len() > 0
                invariant
                    result_view(result) == Ok::<OutcomeView, ServiceErrorView>(
                        OutcomeView::Listed(all),
                    ),
                    rest.len() <= all.len(),
                    rest.deep_view() == all.take(rest.len() as int),
                    reversed.len() == all.len() - rest.len(),
                    forall|i: int|
                        rest.len() <= i < all.len() ==> (#[trigger] all[i]).id is Some,
                    forall|i: int|
                        0 <= i < reversed.len() ==> (#[trigger] reversed[i])@ == all[all.len() - 1
                            - i],
                decreases rest.len(),
            {
                let ghost before_rest = rest.deep_view();
                let ghost remaining = rest.len();
                let race = rest.pop().unwrap();
                proof {
                    assert(race.deep_view() == before_rest[remaining - 1]);
                    assert(rest.deep_view() =~= all.take(rest.len() as int));
                }
                if race.id.is_none() {
                    assert(all[remaining - 1].id is None);
                    return Err(Status { code: INTERNAL_SERVER_ERROR });
                }
                reversed.push(Race::from(race));
            }
            let mut races: Vec<Race> = Vec::new();
            while reversed.len() > 0
                invariant
                    races.len() + reversed.len() == all.len(),
                    forall|i: int| 0 <= i < all.len() ==> (#[trigger] all[i]).id is Some,
                    forall|i: int|
                        0 <= i < reversed.len() ==> (#[trigger] reversed[i])@ == all[all.len() - 1
                            - i],
                    forall|i: int| 0 <= i < races.len() ==> (#[trigger] races[i])@ == all[i],
                decreases reversed.len(),
            {
                let race = reversed.pop().unwrap();
                races.push(race);
            }
            proof {
                assert(Seq::new(races.len() as nat, |i: int| races[i]@) =~= all);
            }
            Ok(races)
        },
        _ => Err(Status { code: INTERNAL_SERVER_ERROR }),
    }
}

/// `GET /races/<race_id>`: asks the store for a race.
pub fn get(race_service: &RaceService, race_id: String) -> (step: Step)
    ensures
        step@ == get_step(race_id@),
{
    race_service.get(race_id)
}

/// Answers a lookup: the race, or that there is none, or a failure of the
/// service.
pub fn get_response(result: Result<Outcome, ServiceError>) -> (answer: Result<Race, Status>)
    ensures
        race_view(answer) == get_answer(result_view(result)),
{
    match result {
        Ok(Outcome::Found(Some(race))) => {
            if race.id.is_some() {
                Ok(Race::from(race))
            } else {
                Err(Status { code: INTERNAL_SERVER_ERROR })
            }
        },
        Ok(Outcome::Found(None)) => Err(Status { code: NOT_FOUND }),
        _ => Err(Status { code: INTERNAL_SERVER_ERROR }),
    }
}

/// `POST /races`: asks the store to create the race.
pub fn post(race_service: &RaceService, race: Race) -> (step: Step)
    ensures
        step@ == create_step(race@),
{
    race_service.create(race.into())
}

/// Answers a creation.
pub fn post_response(result: &Result<Outcome, ServiceError>) -> (status: Status)
    ensures
        status.code == change_code(result_view(*result), CREATED),
{
    change_status(result, CREATED)
}

/// `POST /races/<race_id>/archive`: asks the store to archive the race.
pub fn archive(race_service: &RaceService, race_id: String) -> (step: Step)
    ensures
        step@ == archive_step(race_id@),
{
    race_service.archive(race_id)
}

/// Answers an archiving.
pub fn archive_response(result: &Result<Outcome, ServiceError>) -> (status: Status)
    ensures
        status.code == change_code(result_view(*result), OK),
{
    change_status(result, OK)
}

/// `POST /races/<race_id>/restore`: asks the store to restore the race.
pub fn restore(race_service: &RaceService, race_id: String) -> (step: Step)
    ensures
        step@ == restore_step(race_id@),
{
    race_service.restore(race_id)
}

/// Answers a restoring.
pub fn restore_response(result: &Result<Outcome, ServiceError>) -> (status: Status)
    ensures
        status.code == change_code(result_view(*result), CREATED),
{
    change_status(result, CREATED)
}

/// `PUT /races/<race_id>`: asks the store to update the race.
pub fn put(race_service: &RaceService, race_id: String, race: Race) -> (step: Step)
    ensures
        step@ == update_step(race_id@, race@),
{
    race_service.update(race_id, race.into())
}

/// Answers an update.
pub fn put_response(result: &Result<Outcome, ServiceError>) -> (status: Status)
    ensures
        status.code == change_code(result_view(*result), NO_CONTENT),
{
    change_status(result, NO_CONTENT)
}

/// `DELETE /races/<race_id>`: asks the store to delete the race.
pub fn delete(race_service: &RaceService, race_id: String) -> (step: Step)
    ensures
        step@ == delete_step(race_id@),
{
    race_service.delete(race_id)
}

/// Answers a deletion.
pub fn delete_response(result: &Result<Outcome, ServiceError>) -> (status: Status)
    ensures
        status.code == change_code(result_view(*result), NO_CONTENT),
{
    change_status(result, NO_CONTENT)
}

/// The race that a leg is created as: the race derived from the leg, with
/// the label of the boat where the lookup of its polar gave one.
pub open spec fn leg_race(leg: LegView, boat: Option<Seq<char>>) -> RaceView {
    RaceView {
        boat: match boat {
            Some(label) => label,
            None => Seq::empty(),
        },
        ..leg.race(clean_name_of(leg.name))
    }
}

/// `POST /legs`: derives a race from the leg, gives it the boat that the
/// lookup of the leg's polar gave, and asks the store to create it.
pub fn post_leg(race_service: &RaceService, leg: Leg, boat: Option<String>) -> (step: Step)
    ensures
        step@ == create_step(leg_race(leg@, boat.deep_view())),
{
    let mut race = leg.into();
    race.boat = match boat {
        Some(label) => label,
        None => String::new(),
    };
    race_service.create(race)
}

/// Answers the creation of a race from a leg.
pub fn post_leg_response(result: &Result<Outcome, ServiceError>) -> (status: Status)
    ensures
        status.code == change_code(result_view(*result), CREATED),
{
    change_status(result, CREATED)
}

} // verus!
