//! The lookup of a boat by the number of its polar.
//!
//! The lookup is one request to another service. This module says where
//! the request goes and what the answer means; sending it is the caller's
//! part.

use crate::api::v1::OK;
use crate::config::ServiceConfig;
use crate::text::{decimal, push_decimal};
use vstd::prelude::*;
use vstd::string::*;

verus! {

/// A polar, as the other service describes it.
#[derive(Debug, Clone, PartialEq, Eq)]
pub struct Polar {
    /// The label of the boat.
    pub id: Option<String>,
}

/// How the request for a polar ended.
#[derive(Debug, Clone, PartialEq, Eq)]
pub enum Answer {
    /// No answer came.
    Unreachable,
    /// An answer came, with a status that a caller does not accept.
    Refused(u16),
    /// An answer came, with a body that describes no polar.
    Undecodable,
    /// An answer came, and describes this polar.
    Decoded(Polar),
}

/// The boat that an answer gives: the label of the polar it describes,
/// where it describes one that has a label.
pub open spec fn boat_of(answer: Answer) -> Option<Seq<char>> {
    match answer {
        Answer::Decoded(polar) => polar.id.deep_view(),
        _ => None,
    }
}

/// The address of the request for the polar `polar_id` at the service at
/// `url`.
pub open spec fn request_url_of(url: Seq<char>, polar_id: u8) -> Seq<char> {
    url + "?polar_id="@ + decimal(polar_id as nat)
}

/// The client of the service that knows the boats.
#[derive(Debug, Clone, PartialEq, Eq)]
pub struct PolarService {
    polars: ServiceConfig,
}

impl PolarService {
    /// A client of the service that `polars` describes.
    pub fn new(polars: ServiceConfig) -> (service: PolarService)
        ensures
            service.url() == polars.url@,
    {
        PolarService { polars }
    }

    /// The address of the service.
    pub closed spec fn url(&self) -> Seq<char> {
        self.polars.url@
    }

    /// The address to which the request for the polar `polar_id` goes.
    pub fn request_url(&self, polar_id: u8) -> (url: String)
        ensures
            url@ == request_url_of(self.url(), polar_id),
    {
        let mut url = self.polars.url.clone();
        url.append("?polar_id=");
        push_decimal(&mut url, polar_id as u64);
        url
    }

    /// Whether an answer with this status is read any further.
    pub fn accepts(status: u16) -> (accepted: bool)
        ensures
            accepted == (status == OK),
    {
        status == OK
    }

    /// The boat that the answer to the request gives, if it gives one.
    pub fn get_boat(&self, answer: Answer) -> (boat: Option<String>)
        ensures
            boat.deep_view() == boat_of(answer),
    {
        match answer {
            Answer::Decoded(polar) => polar.id,
            _ => None,
        }
    }
}

} // verus!
