//! Endpoint configuration of one conversion request.

use vstd::prelude::*;

verus! {

/// The RPC endpoint and the time zone that a conversion works with.
///
/// Both fields are optional while a configuration is being assembled from
/// several sources; a conversion needs both to be present.
#[derive(Debug)]
pub struct Config {
    pub snipe_rpc_url: Option<String>,
    pub time_zone: Option<String>,
}

impl Config {
    /// A configuration with both fields present.
    pub fn new(snipe_rpc_url: String, time_zone: String) -> (config: Config)
        ensures
            config.snipe_rpc_url == Some(snipe_rpc_url),
            config.time_zone == Some(time_zone),
    {
        Config { snipe_rpc_url: Some(snipe_rpc_url), time_zone: Some(time_zone) }
    }

    /// The RPC endpoint. It has to be present.
    pub fn snipe_rpc_url(&self) -> (url: &str)
        requires
            self.snipe_rpc_url is Some,
        ensures
            url@ == self.snipe_rpc_url->0@,
    {
        self.snipe_rpc_url.as_ref().unwrap().as_str()
    }

    /// The time zone identifier. It has to be present.
    pub fn time_zone(&self) -> (zone: &str)
        requires
            self.time_zone is Some,
        ensures
            zone@ == self.time_zone->0@,
    {
        self.time_zone.as_ref().unwrap().as_str()
    }
}

} // verus!
