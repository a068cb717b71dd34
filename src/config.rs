use vstd::prelude::*;

verus! {

/// Where the rate lookup service is reached when nothing else is configured.
pub open spec fn default_rate_service_url() -> Seq<char> {
    "http://localhost:8001/find_rate"@
}

/// How long a call to the rate lookup service may take, in seconds, before it
/// counts as a failed connection.
pub const RATE_LOOKUP_TIMEOUT_SECS: u64 = 5;

/// Settings read once when the service starts and handed to the handler.
pub struct Config {
    pub rate_service_url: String,
    pub timeout_secs: u64,
}

impl Config {
    /// Builds the settings from the configured rate service URL, if one was
    /// given; otherwise the default URL is used.
    pub fn from_setting(url: Option<String>) -> (r: Config)
        ensures
            r.rate_service_url@ == match url {
                Some(u) => u@,
                None => default_rate_service_url(),
            },
            r.timeout_secs == RATE_LOOKUP_TIMEOUT_SECS,
    {
        match url {
            Some(u) => Config { rate_service_url: u, timeout_secs: RATE_LOOKUP_TIMEOUT_SECS },
            None => {
                let s = String::from_str("http://localhost:8001/find_rate");
                Config { rate_service_url: s, timeout_secs: RATE_LOOKUP_TIMEOUT_SECS }
            },
        }
    }
}

} // verus!
