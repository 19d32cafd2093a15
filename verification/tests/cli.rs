use fronius_exporter::cli::{
    CliArgs, ConfigError, HostDetect, HostSource, DEFAULT_METRIC_BIND, DEFAULT_TIMEOUT_SEC,
    DEFAULT_UPDATE_SEC,
};
use fronius_exporter::fronius::client::Domain;
use fronius_exporter::gauges::StorageDetail;
use fronius_exporter::poll::{Pending, PollState};

fn detect(host: Option<&str>, zeroconf: bool) -> HostDetect {
    HostDetect { fronius_host: host.map(|h| h.to_string()), fronius_zeroconf: zeroconf }
}

#[test]
fn configured_host_is_the_source() {
    assert_eq!(
        detect(Some("fronius.local"), false).source(),
        Ok(HostSource::Static("fronius.local".to_string()))
    );
}

#[test]
fn discovery_is_the_source_without_a_host() {
    assert_eq!(detect(None, true).source(), Ok(HostSource::Zeroconf));
}

#[test]
fn host_and_discovery_exclude_each_other() {
    assert_eq!(detect(Some("fronius.local"), true).source(), Err(ConfigError::ConflictingHost));
}

#[test]
fn one_source_has_to_be_chosen() {
    assert_eq!(detect(None, false).source(), Err(ConfigError::MissingHost));
}

#[test]
fn defaults_are_two_minutes_ten_seconds_and_port_9123() {
    assert_eq!(DEFAULT_TIMEOUT_SEC, 120);
    assert_eq!(DEFAULT_UPDATE_SEC, 10);
    assert_eq!(DEFAULT_METRIC_BIND, "0.0.0.0:9123");
    let args = CliArgs::new(detect(None, true));
    assert_eq!(args.fronius_detect, detect(None, true));
    assert_eq!(args.fronius_timeout_sec, 120);
    assert_eq!(args.fronius_update_sec, 10);
    assert_eq!(args.metric_bind, "0.0.0.0:9123");
}

#[test]
fn poller_takes_timeout_and_interval_from_the_configuration() {
    let mut args = CliArgs::new(detect(Some("10.0.0.5"), false));
    args.fronius_timeout_sec = 7;
    args.fronius_update_sec = 3;
    let mut poller = args.poller("10.0.0.5", StorageDetail::Extended);
    assert_eq!(poller.state(), PollState::Fetching(Domain::PowerFlow));
    match poller.pending() {
        Pending::Fetch { domain, request } => {
            assert_eq!(domain, Domain::PowerFlow);
            assert_eq!(request.url, "http://10.0.0.5/solar_api/v1/GetPowerFlowRealtimeData.fcgi");
            assert_eq!(request.timeout_sec, 7);
        },
        Pending::Sleep { .. } => panic!("the loop sleeps"),
    }
    for _ in 0..4 {
        poller.on_reply(&fronius_exporter::fronius::client::Reply::Failed);
    }
    assert_eq!(poller.pending(), Pending::Sleep { secs: 3 });
}

#[test]
fn configuration_errors_are_put_in_words() {
    assert_eq!(
        ConfigError::MissingHost.message(),
        "either a host or discovery has to be configured"
    );
    assert_eq!(
        ConfigError::ConflictingHost.message(),
        "a host cannot be configured together with discovery"
    );
    assert_eq!(
        ConfigError::MalformedBind.message(),
        "the bind address of the metrics endpoint is malformed"
    );
}
