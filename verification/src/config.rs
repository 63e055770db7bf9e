//! What the service is configured with.

use vstd::prelude::*;

verus! {

/// How to reach another service.
#[derive(Debug, Clone, PartialEq, Eq)]
pub struct ServiceConfig {
    pub url: String,
}

impl Default for ServiceConfig {
    fn default() -> (config: ServiceConfig)
        ensures
            config.url@ == Seq::<char>::empty(),
    {
        ServiceConfig { url: String::new() }
    }
}

/// The configuration of the service: the two directories of the store and
/// the service that knows the boats.
#[derive(Debug, Clone, PartialEq, Eq)]
pub struct Config {
    pub races_dir: String,
    pub archived_dir: String,
    pub polars: ServiceConfig,
}

impl Default for Config {
    fn default() -> (config: Config)
        ensures
            config.races_dir@ == Seq::<char>::empty(),
            config.archived_dir@ == Seq::<char>::empty(),
            config.polars.url@ == Seq::<char>::empty(),
    {
        Config {
            races_dir: String::new(),
            archived_dir: String::new(),
            polars: ServiceConfig { url: String::new() },
        }
    }
}

} // verus!
