//! The bot's configuration record and the defaults for the three pool
//! directories. Reading and decoding the configuration file is the caller's
//! job; this module fixes what the record holds once the raw values are in.

use vstd::prelude::*;

verus! {

/// Immutable configuration: the gateway token, the tag put on every telemetry
/// point, the optional time-series endpoint (host and database stand or fall
/// together), and the three pool directory paths.
pub struct BotConfig {
    pub token: String,
    pub analytics_identifier: String,
    pub influx_host: Option<String>,
    pub influx_database: Option<String>,
    pub true_folder_path: String,
    pub maybe_folder_path: String,
    pub false_folder_path: String,
}

/// Default directory for the affirmative pool.
pub fn true_default_path() -> (r: String)
    ensures
        r@ == "true"@,
{
    String::from_str("true")
}

/// Default directory for the undecided pool.
pub fn maybe_default_path() -> (r: String)
    ensures
        r@ == "maybe"@,
{
    String::from_str("maybe")
}

/// Default directory for the negative pool.
pub fn false_default_path() -> (r: String)
    ensures
        r@ == "false"@,
{
    String::from_str("false")
}

impl BotConfig {
    /// Assembles a configuration from the values found in the configuration
    /// file, filling each absent pool path with its default.
    pub fn new(
        token: String,
        analytics_identifier: String,
        influx_host: Option<String>,
        influx_database: Option<String>,
        true_folder_path: Option<String>,
        maybe_folder_path: Option<String>,
        false_folder_path: Option<String>,
    ) -> (r: BotConfig)
        ensures
            r.token == token,
            r.analytics_identifier == analytics_identifier,
            r.influx_host == influx_host,
            r.influx_database == influx_database,
            r.true_folder_path@ == (match true_folder_path {
                Some(p) => p@,
                None => "true"@,
            }),
            r.maybe_folder_path@ == (match maybe_folder_path {
                Some(p) => p@,
                None => "maybe"@,
            }),
            r.false_folder_path@ == (match false_folder_path {
                Some(p) => p@,
                None => "false"@,
            }),
    {
        let true_folder_path = match true_folder_path {
            Some(p) => p,
            None => true_default_path(),
        };
        let maybe_folder_path = match maybe_folder_path {
            Some(p) => p,
            None => maybe_default_path(),
        };
        let false_folder_path = match false_folder_path {
            Some(p) => p,
            None => false_default_path(),
        };
        BotConfig {
            token,
            analytics_identifier,
            influx_host,
            influx_database,
            true_folder_path,
            maybe_folder_path,
            false_folder_path,
        }
    }
}

} // verus!
