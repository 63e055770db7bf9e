//! The interface of the store towards the network.

pub mod v1;

use crate::api::v1::{route_table, routes, Route};
use vstd::prelude::*;
use vstd::string::*;

verus! {

/// The interface, ready to be served: its routes and the path below which
/// they lie.
#[derive(Debug, Clone, PartialEq, Eq)]
pub struct Api {
    pub base: String,
    pub routes: Vec<Route>,
}

/// The path below which the routes of the first version lie.
pub open spec fn base_path() -> Seq<char> {
    "/races/api/v1"@
}

/// Puts the interface together: the routes of the first version, below
/// their path.
pub fn init() -> (api: Api)
    ensures
        api.base@ == base_path(),
        api.routes.deep_view() == route_table(),
{
    Api { base: String::from_str("/races/api/v1"), routes: routes() }
}

} // verus!
