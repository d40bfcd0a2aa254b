//! Configuration resolution: what to do with the result of loading the
//! credentials file.
//!
//! Reading and writing the file, and constructing the authenticated storage
//! client from the resolved values, are the unverified shell's work; the
//! shell reports how the load went and this module decides what follows.

use vstd::prelude::*;

verus! {

/// Mathematical image of a [`Config`].
#[verifier::ext_equal]
pub struct ConfigView {
    pub access_key_id: Seq<char>,
    pub secret_access_key: Seq<char>,
    pub region: Seq<char>,
    pub endpoint_url: Option<Seq<char>>,
}

impl ConfigView {
    /// True while the credentials are still the placeholder values a fresh
    /// file is created with; the transfer core never runs with them.
    pub open spec fn is_placeholder(self) -> bool {
        self.access_key_id == "YOUR_ACCESS_KEY_ID"@ || self.secret_access_key
            == "YOUR_SECRET_ACCESS_KEY"@
    }
}

/// The credentials and settings for storage access, as the per-user
/// configuration file holds them. `endpoint_url` is set only for
/// S3-compatible alternative services.
#[derive(Debug, PartialEq, Eq)]
pub struct Config {
    pub access_key_id: String,
    pub secret_access_key: String,
    pub region: String,
    pub endpoint_url: Option<String>,
}

impl View for Config {
    type V = ConfigView;

    open spec fn view(&self) -> ConfigView {
        ConfigView {
            access_key_id: self.access_key_id@,
            secret_access_key: self.secret_access_key@,
            region: self.region@,
            endpoint_url: match self.endpoint_url {
                Some(ref url) => Some(url@),
                None => None,
            },
        }
    }
}

/// The content a freshly created configuration file is populated with.
pub open spec fn spec_default_config() -> ConfigView {
    ConfigView {
        access_key_id: "YOUR_ACCESS_KEY_ID"@,
        secret_access_key: "YOUR_SECRET_ACCESS_KEY"@,
        region: "us-east-1"@,
        endpoint_url: None,
    }
}

/// Builds the placeholder configuration a fresh file is populated with.
pub fn default_config() -> (c: Config)
    ensures
        c@ == spec_default_config(),
        c@.is_placeholder(),
{
    let c = Config {
        access_key_id: String::from_str("YOUR_ACCESS_KEY_ID"),
        secret_access_key: String::from_str("YOUR_SECRET_ACCESS_KEY"),
        region: String::from_str("us-east-1"),
        endpoint_url: None,
    };
    proof {
        assert(c@ =~= spec_default_config());
    }
    c
}

impl Config {
    /// True while the credentials are still the placeholder values.
    pub fn has_placeholder_credentials(&self) -> (r: bool)
        ensures
            r == self@.is_placeholder(),
    {
        self.access_key_id == String::from_str("YOUR_ACCESS_KEY_ID") || self.secret_access_key
            == String::from_str("YOUR_SECRET_ACCESS_KEY")
    }
}

/// How loading the configuration file went, as the shell reports it: the
/// missing-file case is a signal of its own, never inferred from message
/// text.
#[derive(Debug, PartialEq, Eq)]
pub enum LoadOutcome {
    /// The file was present and parsed into this configuration.
    Loaded(Config),
    /// The file does not exist at the well-known location.
    Missing,
    /// The file could not be read or parsed; the cause, rendered as text.
    Failed(String),
}

/// What startup does with the load outcome.
#[derive(Debug, PartialEq, Eq)]
pub enum ConfigDecision {
    /// Run the invocation with this configuration.
    Use(Config),
    /// Write this freshly created placeholder configuration, instruct the
    /// user to edit it, and fail the invocation.
    CreateDefaultAndAbort(Config),
    /// Fail the invocation: the file exists but still holds placeholder
    /// credentials.
    AbortPlaceholder,
    /// Fail the invocation: the file could not be read or parsed; the cause
    /// is surfaced unmodified.
    AbortLoadFailed(String),
}

/// Decides what startup does for each way the load can have gone: a usable
/// configuration runs, a missing file is created with placeholders and the
/// invocation fails, placeholder credentials fail, and a read or parse
/// failure fails with its cause.
pub fn resolve_config(outcome: LoadOutcome) -> (d: ConfigDecision)
    ensures
        outcome matches LoadOutcome::Loaded(c) ==> ({
            &&& !c@.is_placeholder() ==> (d matches ConfigDecision::Use(rc) && rc@ == c@)
            &&& c@.is_placeholder() ==> d is AbortPlaceholder
        }),
        outcome is Missing ==> (d matches ConfigDecision::CreateDefaultAndAbort(c) && c@
            == spec_default_config()),
        outcome matches LoadOutcome::Failed(e) ==> (d matches ConfigDecision::AbortLoadFailed(
            msg,
        ) && msg@ == e@),
{
    match outcome {
        LoadOutcome::Loaded(c) => {
            if c.has_placeholder_credentials() {
                ConfigDecision::AbortPlaceholder
            } else {
                ConfigDecision::Use(c)
            }
        },
        LoadOutcome::Missing => ConfigDecision::CreateDefaultAndAbort(default_config()),
        LoadOutcome::Failed(e) => ConfigDecision::AbortLoadFailed(e),
    }
}

} // verus!
