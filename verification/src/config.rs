use vstd::prelude::*;

verus! {

/// Settings of the service, from the command line or the environment.
#[derive(Clone, Debug)]
pub struct Config {
    pub host: String,
    pub port: u16,
    /// Space-Track.org username (optional — enables CDM enrichment)
    pub spacetrack_username: Option<String>,
    /// Space-Track.org password
    pub spacetrack_password: Option<String>,
    /// TLE cache TTL in seconds
    pub tle_cache_ttl_secs: u64,
    /// Log level (trace, debug, info, warn, error)
    pub log_level: String,
}

} // verus!
