//! The service's configuration values, with their defaults.
use vstd::prelude::*;

verus! {

/// The values the service is configured with.
#[derive(Debug, Clone)]
pub struct AppEnv {
    /// Where the store lives.
    pub database_url: String,
    /// The host the service listens on.
    pub mosaic_listen_host: String,
    /// The port the service listens on.
    pub mosaic_listen_port: String,
    /// The token the remote gateway is called with.
    pub github_token: String,
}

impl AppEnv {
    /// Builds the configuration, filling an absent host or port with its
    /// default.
    pub fn with_defaults(
        database_url: String,
        host: Option<String>,
        port: Option<String>,
        github_token: String,
    ) -> (r: AppEnv)
        ensures
            r.database_url == database_url,
            r.github_token == github_token,
            match host {
                Some(h) => r.mosaic_listen_host == h,
                None => r.mosaic_listen_host@ == "127.0.0.1"@,
            },
            match port {
                Some(p) => r.mosaic_listen_port == p,
                None => r.mosaic_listen_port@ == "3939"@,
            },
    {
        AppEnv {
            database_url,
            mosaic_listen_host: match host {
                Some(h) => h,
                None => String::from_str("127.0.0.1"),
            },
            mosaic_listen_port: match port {
                Some(p) => p,
                None => String::from_str("3939"),
            },
            github_token,
        }
    }
}

} // verus!
