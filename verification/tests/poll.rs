use fronius_exporter::decode::DecodeError;
use fronius_exporter::fronius::client::{ClientError, Domain, FroniusClient, Reply};
use fronius_exporter::gauges::{Sample, StorageDetail};
use fronius_exporter::poll::{Outcome, Pending, PollState, Poller};

const HEAD: &str = r#"{"RequestArguments": {}, "Status": {"Code": 0, "Reason": "", "UserMessage": ""}}"#;

fn envelope(data: &str) -> Reply {
    Reply::Answer {
        status: 200,
        body: format!("{{\"Body\": {{\"Data\": {}}}, \"Head\": {}}}", data, HEAD).into_bytes(),
    }
}

fn poller() -> Poller {
    Poller::new(FroniusClient::new("inverter", 30), 10, StorageDetail::Basic)
}

fn fetched(pending: Pending) -> Domain {
    match pending {
        Pending::Fetch { domain, .. } => domain,
        Pending::Sleep { .. } => panic!("the loop sleeps"),
    }
}

#[test]
fn loop_starts_with_the_power_flow() {
    let poller = poller();
    assert_eq!(poller.state(), PollState::Fetching(Domain::PowerFlow));
    match poller.pending() {
        Pending::Fetch { domain, request } => {
            assert_eq!(domain, Domain::PowerFlow);
            assert_eq!(request.url, "http://inverter/solar_api/v1/GetPowerFlowRealtimeData.fcgi");
            assert_eq!(request.timeout_sec, 30);
        },
        Pending::Sleep { .. } => panic!("the loop sleeps"),
    }
}

#[test]
fn domains_follow_in_the_fixed_order() {
    assert_eq!(Domain::first(), Domain::PowerFlow);
    assert_eq!(Domain::PowerFlow.next(), Some(Domain::Storage));
    assert_eq!(Domain::Storage.next(), Some(Domain::Inverter));
    assert_eq!(Domain::Inverter.next(), Some(Domain::Meter));
    assert_eq!(Domain::Meter.next(), None);
}

#[test]
fn states_follow_replies_and_wake_ups() {
    assert_eq!(PollState::start(), PollState::Fetching(Domain::PowerFlow));
    assert_eq!(
        PollState::Fetching(Domain::PowerFlow).after_reply(),
        PollState::Fetching(Domain::Storage)
    );
    assert_eq!(PollState::Fetching(Domain::Meter).after_reply(), PollState::Idle);
    assert_eq!(PollState::Idle.after_reply(), PollState::Idle);
    assert_eq!(PollState::Idle.after_wake(), PollState::Fetching(Domain::PowerFlow));
    assert_eq!(
        PollState::Fetching(Domain::Inverter).after_wake(),
        PollState::Fetching(Domain::Inverter)
    );
}

#[test]
fn failed_power_flow_does_not_stop_the_tick() {
    let mut poller = poller();
    let outcome = poller.on_reply(&Reply::Answer { status: 500, body: Vec::new() });
    assert_eq!(
        outcome,
        Some(Outcome {
            domain: Domain::PowerFlow,
            result: Err(ClientError::Transport { status: 500 }),
        })
    );
    assert_eq!(fetched(poller.pending()), Domain::Storage);
    let outcome = poller.on_reply(&envelope("{}")).unwrap();
    assert_eq!(outcome.domain, Domain::Storage);
    assert_eq!(outcome.result, Ok(vec![]));
    assert_eq!(fetched(poller.pending()), Domain::Inverter);
    let outcome = poller.on_reply(&envelope("{}")).unwrap();
    assert_eq!(outcome.domain, Domain::Inverter);
    assert_eq!(outcome.result, Err(ClientError::Decode(DecodeError::Missing)));
    assert_eq!(fetched(poller.pending()), Domain::Meter);
    let outcome = poller.on_reply(&envelope("{}")).unwrap();
    assert_eq!(outcome.domain, Domain::Meter);
    assert_eq!(outcome.result, Ok(vec![]));
    assert_eq!(poller.state(), PollState::Idle);
    assert_eq!(poller.pending(), Pending::Sleep { secs: 10 });
}

#[test]
fn unreachable_device_gives_four_errors_in_each_tick() {
    let mut poller = poller();
    for _tick in 0..2 {
        let mut errors = Vec::new();
        let mut domains = Vec::new();
        loop {
            match poller.pending() {
                Pending::Fetch { domain, .. } => {
                    domains.push(domain);
                    match poller.on_reply(&Reply::Failed) {
                        Some(Outcome { domain: failed, result: Err(error) }) => {
                            assert_eq!(failed, domain);
                            errors.push(error);
                        },
                        other => panic!("no error: {:?}", other),
                    }
                },
                Pending::Sleep { secs } => {
                    assert_eq!(secs, 10);
                    poller.on_wake();
                    break;
                },
            }
        }
        assert_eq!(
            domains,
            vec![Domain::PowerFlow, Domain::Storage, Domain::Inverter, Domain::Meter]
        );
        assert_eq!(errors, vec![ClientError::Network; 4]);
        assert_eq!(poller.state(), PollState::Fetching(Domain::PowerFlow));
    }
}

#[test]
fn successful_tick_gives_the_observations_of_each_domain() {
    let mut poller = Poller::new(FroniusClient::new("h", 1), 3, StorageDetail::Extended);
    let site = r#"{"Site": {"BackupMode": true, "BatteryStandby": false, "P_Akku": 1, "P_Grid": 2,
        "P_Load": 3, "P_PV": 4, "rel_Autonomy": 5}}"#;
    let flow = poller.on_reply(&envelope(site)).unwrap();
    assert_eq!(flow.domain, Domain::PowerFlow);
    let flow = flow.result.unwrap();
    assert_eq!(flow.len(), 7);
    assert_eq!(flow[0].name, "fronius_power_backup_mode");
    assert_eq!(flow[0].value, Sample::Count(1));
    let storage = r#"{"0": {"Controller": {"Capacity_Maximum": 1, "Current_DC": 2,
        "StateOfCharge_Relative": 3, "Voltage_DC": 4, "Temperature_Cell": 5, "Enable": 1}}}"#;
    let storage = poller.on_reply(&envelope(storage)).unwrap().result.unwrap();
    assert_eq!(storage.len(), 6);
    assert_eq!(storage[5].name, "fronius_storage_enable");
    assert_eq!(storage[5].value, Sample::Count(1));
    assert_eq!(storage[5].label.as_ref().unwrap().value, "0");
    let value = r#"{"Unit": "x", "Value": null}"#;
    let keys = [
        "DAY_ENERGY", "IAC", "IDC", "IDC_2", "IDC_3", "IDC_4", "PAC", "SAC", "TOTAL_ENERGY",
        "UAC", "UDC", "UDC_2", "UDC_3", "UDC_4", "YEAR_ENERGY",
    ];
    let members: Vec<String> = keys.iter().map(|k| format!("\"{}\": {}", k, value)).collect();
    let inverter = poller.on_reply(&envelope(&format!("{{{}}}", members.join(",")))).unwrap();
    assert_eq!(inverter.domain, Domain::Inverter);
    assert_eq!(inverter.result.unwrap().len(), 15);
    let meter = r#"{"0": {"PowerReal_P_Sum": 1, "EnergyReal_WAC_Sum_Consumed": 2,
        "EnergyReal_WAC_Sum_Produced": 3}, "1": {"PowerReal_P_Sum": 1,
        "EnergyReal_WAC_Sum_Consumed": 2, "EnergyReal_WAC_Sum_Produced": 3}}"#;
    let meter = poller.on_reply(&envelope(meter)).unwrap();
    assert_eq!(meter.domain, Domain::Meter);
    assert_eq!(meter.result.unwrap().len(), 6);
    assert_eq!(poller.pending(), Pending::Sleep { secs: 3 });
}

#[test]
fn stray_events_change_nothing() {
    let mut poller = poller();
    poller.on_wake();
    assert_eq!(poller.state(), PollState::Fetching(Domain::PowerFlow));
    for _ in 0..4 {
        poller.on_reply(&Reply::Failed);
    }
    assert_eq!(poller.state(), PollState::Idle);
    assert_eq!(poller.on_reply(&Reply::Failed), None);
    assert_eq!(poller.on_reply(&envelope("{}")), None);
    assert_eq!(poller.state(), PollState::Idle);
    poller.on_wake();
    assert_eq!(poller.state(), PollState::Fetching(Domain::PowerFlow));
}
