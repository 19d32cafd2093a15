//! The configuration, as plain values.
//!
//! Reading flags and environment variables is left to the caller. What
//! stands here are the values, their defaults, and the rule on where the
//! device's address comes from.

use crate::fronius::client::{FroniusClient, FroniusClientView};
use crate::gauges::StorageDetail;
use crate::poll::{PollState, Poller};
use vstd::prelude::*;
use vstd::string::StringExecFns;

verus! {

/// The seconds that a request may take, unless configured.
pub const DEFAULT_TIMEOUT_SEC: u32 = 120;

/// The seconds between two ticks, unless configured.
pub const DEFAULT_UPDATE_SEC: u32 = 10;

/// The address that the metrics endpoint binds to, unless configured.
pub const DEFAULT_METRIC_BIND: &'static str = "0.0.0.0:9123";

/// What is wrong with a configuration.
#[derive(Clone, Copy, Debug, PartialEq, Eq, Structural)]
pub enum ConfigError {
    /// Neither a host nor discovery is configured.
    MissingHost,
    /// A host is configured together with discovery.
    ConflictingHost,
    /// The bind address of the metrics endpoint is malformed.
    MalformedBind,
}

impl ConfigError {
    /// The error in words.
    pub open spec fn spec_message(self) -> &'static str {
        match self {
            ConfigError::MissingHost => "either a host or discovery has to be configured",
            ConfigError::ConflictingHost => "a host cannot be configured together with discovery",
            ConfigError::MalformedBind => "the bind address of the metrics endpoint is malformed",
        }
    }

    /// The error in words.
    #[verifier::when_used_as_spec(spec_message)]
    pub fn message(self) -> (message: &'static str)
        ensures
            message == self.spec_message(),
    {
        match self {
            ConfigError::MissingHost => "either a host or discovery has to be configured",
            ConfigError::ConflictingHost => "a host cannot be configured together with discovery",
            ConfigError::MalformedBind => "the bind address of the metrics endpoint is malformed",
        }
    }
}

/// Where the device's address comes from: a configured host, or discovery.
/// Exactly one of the two has to be chosen.
#[derive(Debug, Clone, PartialEq, Eq)]
pub struct HostDetect {
    pub fronius_host: Option<String>,
    pub fronius_zeroconf: bool,
}

/// Where the device's address comes from, once the choice is known to be valid.
#[derive(Debug, PartialEq, Eq)]
pub enum HostSource {
    /// The configured host.
    Static(String),
    /// Multicast service discovery.
    Zeroconf,
}

/// A `HostSource` with the host by its characters.
pub enum HostSourceView {
    Static(Seq<char>),
    Zeroconf,
}

impl View for HostSource {
    type V = HostSourceView;

    open spec fn view(&self) -> HostSourceView {
        match self {
            HostSource::Static(host) => HostSourceView::Static(host@),
            HostSource::Zeroconf => HostSourceView::Zeroconf,
        }
    }
}

impl HostDetect {
    /// The source that the choice names, or what is wrong with the choice.
    pub open spec fn spec_source(self) -> Result<HostSourceView, ConfigError> {
        match self.fronius_host {
            Some(host) => if self.fronius_zeroconf {
                Err(ConfigError::ConflictingHost)
            } else {
                Ok(HostSourceView::Static(host@))
            },
            None => if self.fronius_zeroconf {
                Ok(HostSourceView::Zeroconf)
            } else {
                Err(ConfigError::MissingHost)
            },
        }
    }

    /// The source that the choice names, or what is wrong with the choice.
    pub fn source(&self) -> (source: Result<HostSource, ConfigError>)
        ensures
            match source {
                Ok(s) => self.spec_source() == Ok::<HostSourceView, ConfigError>(s@),
                Err(error) => self.spec_source() == Err::<HostSourceView, ConfigError>(error),
            },
    {
        match &self.fronius_host {
            Some(host) => if self.fronius_zeroconf {
                Err(ConfigError::ConflictingHost)
            } else {
                Ok(HostSource::Static(host.clone()))
            },
            None => if self.fronius_zeroconf {
                Ok(HostSource::Zeroconf)
            } else {
                Err(ConfigError::MissingHost)
            },
        }
    }
}

/// The whole configuration.
#[derive(Debug, Clone, PartialEq, Eq)]
pub struct CliArgs {
    pub fronius_detect: HostDetect,
    pub fronius_timeout_sec: u32,
    pub fronius_update_sec: u32,
    pub metric_bind: String,
}

impl CliArgs {
    /// The configuration with every value but the address source at its default.
    pub fn new(fronius_detect: HostDetect) -> (args: Self)
        ensures
            args.fronius_detect == fronius_detect,
            args.fronius_timeout_sec == DEFAULT_TIMEOUT_SEC,
            args.fronius_update_sec == DEFAULT_UPDATE_SEC,
            args.metric_bind@ == DEFAULT_METRIC_BIND@,
    {
        CliArgs {
            fronius_detect,
            fronius_timeout_sec: DEFAULT_TIMEOUT_SEC,
            fronius_update_sec: DEFAULT_UPDATE_SEC,
            metric_bind: String::from_str(DEFAULT_METRIC_BIND),
        }
    }

    /// The poll loop for the device at `host`, with the configured timeout
    /// and interval.
    pub fn poller(&self, host: &str, detail: StorageDetail) -> (poller: Poller)
        ensures
            poller.client()@ == (FroniusClientView {
                host: host@,
                timeout_sec: self.fronius_timeout_sec,
            }),
            poller.update_sec() == self.fronius_update_sec,
            poller.detail() == detail,
            poller.state() == PollState::start(),
    {
        Poller::new(
            FroniusClient::new(host, self.fronius_timeout_sec),
            self.fronius_update_sec,
            detail,
        )
    }
}

} // verus!
