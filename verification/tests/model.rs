use fronius_exporter::decode::{decode_field, decode_optional_field, Decode, DecodeError};
use fronius_exporter::fronius::model::{
    FroniusBody, FroniusCommonInverterData, FroniusHead, FroniusMeterData,
    FroniusMeterDeviceData, FroniusPowerFlowData, FroniusResponse, FroniusSite, FroniusStatus,
    FroniusStorageControllerData, FroniusStorageData, FroniusStorageDeviceData, FroniusValue,
};
use fronius_exporter::json::{parse, Json, JsonNumber};
use fronius_exporter::quantity::Quantity;
use fronius_exporter::string_map::StringMap;

const INVERTER: &str = r#"{
    "DAY_ENERGY": {"Unit": "Wh", "Value": 1393.2},
    "DeviceStatus": {"ErrorCode": 0, "StatusCode": 7},
    "IAC": {"Unit": "A", "Value": 0.52},
    "IDC": {"Unit": "A", "Value": 0.06},
    "IDC_2": {"Unit": "A", "Value": 0.07},
    "IDC_3": {"Unit": "A", "Value": null},
    "IDC_4": {"Unit": "A", "Value": null},
    "PAC": {"Unit": "W", "Value": 84},
    "SAC": {"Unit": "VA", "Value": 84.4},
    "TOTAL_ENERGY": {"Unit": "Wh", "Value": 1734796.12},
    "UAC": {"Unit": "V", "Value": 232.4},
    "UDC": {"Unit": "V", "Value": 399.9},
    "UDC_2": {"Unit": "V", "Value": 5.3},
    "UDC_3": {"Unit": "V", "Value": null},
    "UDC_4": {"Unit": "V"},
    "YEAR_ENERGY": {"Unit": "Wh", "Value": 322593.5}
}"#;

fn tree(text: &str) -> Json {
    parse(text.as_bytes()).unwrap()
}

fn quantity(value: f64) -> Quantity {
    Quantity { bits: value.to_bits() }
}

fn reading(unit: &str, value: Option<f64>) -> FroniusValue {
    FroniusValue { unit: unit.to_string(), value: value.map(quantity) }
}

#[test]
fn inverter_fixture_decodes_field_by_field() {
    let data = FroniusCommonInverterData::decode(&tree(INVERTER)).unwrap();
    assert_eq!(data.day_energy, reading("Wh", Some(1393.2)));
    assert_eq!(data.iac, reading("A", Some(0.52)));
    assert_eq!(data.idc, reading("A", Some(0.06)));
    assert_eq!(data.idc_2, reading("A", Some(0.07)));
    assert_eq!(data.idc_3, reading("A", None));
    assert_eq!(data.idc_4, reading("A", None));
    assert_eq!(data.pac, reading("W", Some(84.0)));
    assert_eq!(data.sac, reading("VA", Some(84.4)));
    assert_eq!(data.total_energy, reading("Wh", Some(1734796.12)));
    assert_eq!(data.uac, reading("V", Some(232.4)));
    assert_eq!(data.udc, reading("V", Some(399.9)));
    assert_eq!(data.udc_2, reading("V", Some(5.3)));
    assert_eq!(data.udc_3, reading("V", None));
    assert_eq!(data.udc_4, reading("V", None));
    assert_eq!(data.year_energy, reading("Wh", Some(322593.5)));
}

#[test]
fn inverter_without_a_reading_is_refused() {
    let text = INVERTER.replace("\"UAC\"", "\"UAC_\"");
    assert_eq!(FroniusCommonInverterData::decode(&tree(&text)), Err(DecodeError::Missing));
}

#[test]
fn inverter_reports_the_first_failing_field() {
    let text = INVERTER
        .replace("\"YEAR_ENERGY\"", "\"YEAR\"")
        .replace("{\"Unit\": \"A\", \"Value\": 0.52}", "17");
    assert_eq!(FroniusCommonInverterData::decode(&tree(&text)), Err(DecodeError::Mismatch));
}

#[test]
fn inverter_has_to_be_an_object() {
    assert_eq!(FroniusCommonInverterData::decode(&tree("[]")), Err(DecodeError::Mismatch));
    assert_eq!(FroniusCommonInverterData::decode(&tree("null")), Err(DecodeError::Mismatch));
    assert_eq!(FroniusCommonInverterData::decode(&tree("{}")), Err(DecodeError::Missing));
}

#[test]
fn value_with_null_is_absent_and_keeps_its_unit() {
    let value = FroniusValue::decode(&tree(r#"{"Unit": "A", "Value": null}"#)).unwrap();
    assert_eq!(value.unit, "A");
    assert_eq!(value.value, None);
    assert_eq!(value.or_zero(), quantity(0.0));
}

#[test]
fn value_without_value_member_is_absent() {
    let value = FroniusValue::decode(&tree(r#"{"Unit": "V"}"#)).unwrap();
    assert_eq!(value, reading("V", None));
}

#[test]
fn value_with_number_is_present() {
    let value = FroniusValue::decode(&tree(r#"{"Value": -12.5, "Unit": "W"}"#)).unwrap();
    assert_eq!(value, reading("W", Some(-12.5)));
    assert_eq!(value.or_zero(), quantity(-12.5));
}

#[test]
fn value_of_zero_is_not_absent() {
    let value = FroniusValue::decode(&tree(r#"{"Unit": "W", "Value": 0}"#)).unwrap();
    assert_eq!(value.value, Some(quantity(0.0)));
}

#[test]
fn value_needs_its_unit() {
    assert_eq!(FroniusValue::decode(&tree(r#"{"Value": 1}"#)), Err(DecodeError::Missing));
    assert_eq!(
        FroniusValue::decode(&tree(r#"{"Unit": null, "Value": 1}"#)),
        Err(DecodeError::Mismatch)
    );
    assert_eq!(
        FroniusValue::decode(&tree(r#"{"Unit": 5, "Value": 1}"#)),
        Err(DecodeError::Mismatch)
    );
}

#[test]
fn value_refuses_a_value_that_is_no_number() {
    assert_eq!(
        FroniusValue::decode(&tree(r#"{"Unit": "W", "Value": "12"}"#)),
        Err(DecodeError::Mismatch)
    );
    assert_eq!(
        FroniusValue::decode(&tree(r#"{"Unit": "W", "Value": true}"#)),
        Err(DecodeError::Mismatch)
    );
    assert_eq!(FroniusValue::decode(&tree(r#"["W", 12]"#)), Err(DecodeError::Mismatch));
}

#[test]
fn quantity_is_read_from_any_number() {
    assert_eq!(Quantity::decode(&tree("1.5")), Ok(quantity(1.5)));
    assert_eq!(Quantity::decode(&tree("3")), Ok(quantity(3.0)));
    assert_eq!(Quantity::decode(&tree("-3")), Ok(quantity(-3.0)));
    assert_eq!(Quantity::decode(&tree("null")), Err(DecodeError::Mismatch));
    assert_eq!(Quantity::decode(&tree("\"3\"")), Err(DecodeError::Mismatch));
    let neither = Json::Number(JsonNumber { unsigned: Some(3), real: None });
    assert_eq!(Quantity::decode(&neither), Err(DecodeError::Mismatch));
}

#[test]
fn count_is_read_from_unsigned_integers_of_32_bits() {
    assert_eq!(u32::decode(&tree("0")), Ok(0));
    assert_eq!(u32::decode(&tree("4294967295")), Ok(4294967295));
    assert_eq!(u32::decode(&tree("4294967296")), Err(DecodeError::Mismatch));
    assert_eq!(u32::decode(&tree("-1")), Err(DecodeError::Mismatch));
    assert_eq!(u32::decode(&tree("1.0")), Err(DecodeError::Mismatch));
    assert_eq!(u32::decode(&tree("true")), Err(DecodeError::Mismatch));
}

#[test]
fn flag_and_text_are_read_from_their_kinds_only() {
    assert_eq!(bool::decode(&tree("true")), Ok(true));
    assert_eq!(bool::decode(&tree("false")), Ok(false));
    assert_eq!(bool::decode(&tree("1")), Err(DecodeError::Mismatch));
    assert_eq!(String::decode(&tree("\"a b\"")), Ok("a b".to_string()));
    assert_eq!(String::decode(&tree("null")), Err(DecodeError::Mismatch));
}

#[test]
fn field_tells_missing_from_mismatch() {
    let object = tree(r#"{"a": 1, "b": null}"#);
    assert_eq!(decode_field::<u32>(&object, "a"), Ok(1));
    assert_eq!(decode_field::<u32>(&object, "b"), Err(DecodeError::Mismatch));
    assert_eq!(decode_field::<u32>(&object, "c"), Err(DecodeError::Missing));
    assert_eq!(decode_field::<u32>(&tree("[1]"), "a"), Err(DecodeError::Mismatch));
}

#[test]
fn optional_field_takes_null_and_absence_for_none() {
    let object = tree(r#"{"a": 1, "b": null, "d": "x"}"#);
    assert_eq!(decode_optional_field::<u32>(&object, "a"), Ok(Some(1)));
    assert_eq!(decode_optional_field::<u32>(&object, "b"), Ok(None));
    assert_eq!(decode_optional_field::<u32>(&object, "c"), Ok(None));
    assert_eq!(decode_optional_field::<u32>(&object, "d"), Err(DecodeError::Mismatch));
    assert_eq!(decode_optional_field::<u32>(&tree("7"), "a"), Err(DecodeError::Mismatch));
}

const SITE: &str = r#"{
    "BackupMode": false,
    "BatteryStandby": true,
    "E_Day": null,
    "Mode": "bidirectional",
    "P_Akku": -1084.5,
    "P_Grid": 10.2,
    "P_Load": -402.1,
    "P_PV": 1500,
    "rel_Autonomy": 97.5,
    "rel_SelfConsumption": 100
}"#;

fn site() -> FroniusSite {
    FroniusSite {
        backup_mode: false,
        battery_standby: true,
        power_grid: quantity(10.2),
        power_akku: quantity(-1084.5),
        power_load: quantity(-402.1),
        power_pv: quantity(1500.0),
        rel_autonomy: quantity(97.5),
        rel_self_consumption: Some(quantity(100.0)),
    }
}

#[test]
fn site_decodes_under_its_wire_names() {
    assert_eq!(FroniusSite::decode(&tree(SITE)), Ok(site()));
}

#[test]
fn site_may_lack_the_self_consumption() {
    let without = SITE.replace("\"rel_SelfConsumption\": 100", "\"rel_SelfConsumption\": null");
    let decoded = FroniusSite::decode(&tree(&without)).unwrap();
    assert_eq!(decoded.rel_self_consumption, None);
    assert_eq!(decoded.rel_autonomy, quantity(97.5));
    let gone = SITE.replace("\"rel_SelfConsumption\": 100", "\"x\": 100");
    assert_eq!(FroniusSite::decode(&tree(&gone)).unwrap().rel_self_consumption, None);
}

#[test]
fn site_needs_every_power() {
    let null_pv = SITE.replace("\"P_PV\": 1500", "\"P_PV\": null");
    assert_eq!(FroniusSite::decode(&tree(&null_pv)), Err(DecodeError::Mismatch));
    let no_grid = SITE.replace("\"P_Grid\"", "\"p_grid\"");
    assert_eq!(FroniusSite::decode(&tree(&no_grid)), Err(DecodeError::Missing));
    let flag = SITE.replace("\"BackupMode\": false", "\"BackupMode\": 0");
    assert_eq!(FroniusSite::decode(&tree(&flag)), Err(DecodeError::Mismatch));
}

#[test]
fn power_flow_holds_the_site_one_level_down() {
    let text = format!("{{\"Inverters\": {{}}, \"Site\": {}, \"Version\": \"12\"}}", SITE);
    assert_eq!(FroniusPowerFlowData::decode(&tree(&text)), Ok(FroniusPowerFlowData { site: site() }));
    assert_eq!(FroniusPowerFlowData::decode(&tree(SITE)), Err(DecodeError::Missing));
}

const STORAGE: &str = r#"{
    "1": {
        "Controller": {
            "Capacity_Maximum": 11059.2,
            "Current_DC": -2.5,
            "DesignedCapacity": 11059,
            "Details": {"Manufacturer": "BYD", "Model": "BYD Battery-Box Premium HV"},
            "Enable": 1,
            "StateOfCharge_Relative": 55.5,
            "Status_BatteryCell": 3,
            "Temperature_Cell": 24.1,
            "TimeStamp": 1700000000,
            "Voltage_DC": 420.7
        },
        "Modules": []
    },
    "0": {
        "Controller": {
            "Capacity_Maximum": 5120,
            "Current_DC": 0,
            "Enable": 0,
            "StateOfCharge_Relative": 100,
            "Temperature_Cell": 19.5,
            "Voltage_DC": 51.2
        }
    }
}"#;

fn controller(values: [f64; 5], enable: u32) -> FroniusStorageDeviceData {
    FroniusStorageDeviceData {
        controller: FroniusStorageControllerData {
            capacity: quantity(values[0]),
            current_dc: quantity(values[1]),
            rel_charge: quantity(values[2]),
            voltage_dc: quantity(values[3]),
            temperature_cell: quantity(values[4]),
            enable,
        },
    }
}

#[test]
fn storage_decodes_each_device_under_its_identifier() {
    let storage = FroniusStorageData::decode(&tree(STORAGE)).unwrap();
    assert_eq!(storage.0.len(), 2);
    assert_eq!(storage.0.get("1"), Some(&controller([11059.2, -2.5, 55.5, 420.7, 24.1], 1)));
    assert_eq!(storage.0.get("0"), Some(&controller([5120.0, 0.0, 100.0, 51.2, 19.5], 0)));
    assert_eq!(storage.0.get("2"), None);
}

#[test]
fn storage_may_be_empty() {
    let storage = FroniusStorageData::decode(&tree("{}")).unwrap();
    assert_eq!(storage.0.len(), 0);
}

#[test]
fn storage_fails_with_any_device() {
    let text = STORAGE.replace("\"Enable\": 0", "\"Enable\": -1");
    assert_eq!(FroniusStorageData::decode(&tree(&text)), Err(DecodeError::Mismatch));
    let text = STORAGE.replace("\"Voltage_DC\": 51.2", "\"Voltage\": 51.2");
    assert_eq!(FroniusStorageData::decode(&tree(&text)), Err(DecodeError::Missing));
    assert_eq!(FroniusStorageData::decode(&tree("[]")), Err(DecodeError::Mismatch));
    assert_eq!(FroniusStorageData::decode(&tree("{\"0\": {}}")), Err(DecodeError::Missing));
}

#[test]
fn string_map_keeps_the_later_of_two_members_with_one_key() {
    let object = Json::Object(vec![
        ("a".to_string(), Json::Bool(false)),
        ("b".to_string(), Json::Bool(false)),
        ("a".to_string(), Json::Bool(true)),
    ]);
    let map = StringMap::<bool>::decode(&object).unwrap();
    assert_eq!(map.len(), 2);
    assert_eq!(map.entry(0), (&"a".to_string(), &true));
    assert_eq!(map.entry(1), (&"b".to_string(), &false));
}

#[test]
fn meter_decodes_each_device_under_its_identifier() {
    let text = r#"{"0": {
        "Current_AC_Phase_1": 1.2,
        "Details": {"Serial": "1234"},
        "EnergyReal_WAC_Sum_Consumed": 2710522,
        "EnergyReal_WAC_Sum_Produced": 8477625.5,
        "PowerReal_P_Sum": -512.75
    }}"#;
    let meter = FroniusMeterData::decode(&tree(text)).unwrap();
    assert_eq!(meter.0.len(), 1);
    assert_eq!(
        meter.0.get("0"),
        Some(&FroniusMeterDeviceData {
            power_real: quantity(-512.75),
            energy_real_consumed: quantity(2710522.0),
            energy_real_produced: quantity(8477625.5),
        })
    );
    let broken = text.replace("\"PowerReal_P_Sum\": -512.75", "\"PowerReal_P_Sum\": null");
    assert_eq!(FroniusMeterData::decode(&tree(&broken)), Err(DecodeError::Mismatch));
}

const HEAD: &str = r#"{
    "RequestArguments": {"DataCollection": "CommonInverterData", "Scope": "Device"},
    "Status": {"Code": 0, "Reason": "", "UserMessage": "none"},
    "Timestamp": "2024-05-01T12:00:00+00:00"
}"#;

#[test]
fn status_decodes_code_and_texts() {
    let status = FroniusStatus::decode(&tree(r#"{"Code": 255, "Reason": "r", "UserMessage": "u"}"#));
    assert_eq!(
        status,
        Ok(FroniusStatus { code: 255, reason: "r".to_string(), user_message: "u".to_string() })
    );
    assert_eq!(
        FroniusStatus::decode(&tree(r#"{"Code": "0", "Reason": "", "UserMessage": ""}"#)),
        Err(DecodeError::Mismatch)
    );
    assert_eq!(
        FroniusStatus::decode(&tree(r#"{"Code": 0, "Reason": ""}"#)),
        Err(DecodeError::Missing)
    );
}

#[test]
fn head_decodes_arguments_and_status() {
    let head = FroniusHead::decode(&tree(HEAD)).unwrap();
    assert_eq!(head.request_arguments.len(), 2);
    assert_eq!(head.request_arguments.get("Scope"), Some(&"Device".to_string()));
    assert_eq!(
        head.request_arguments.get("DataCollection"),
        Some(&"CommonInverterData".to_string())
    );
    assert_eq!(head.status.code, 0);
    assert_eq!(head.status.reason, "");
    assert_eq!(head.status.user_message, "none");
}

#[test]
fn head_needs_textual_arguments_and_a_status() {
    let text = HEAD.replace("\"Scope\": \"Device\"", "\"Scope\": 1");
    assert_eq!(FroniusHead::decode(&tree(&text)), Err(DecodeError::Mismatch));
    let text = HEAD.replace("\"Status\"", "\"State\"");
    assert_eq!(FroniusHead::decode(&tree(&text)), Err(DecodeError::Missing));
    let text = HEAD.replace("\"RequestArguments\"", "\"Arguments\"");
    assert_eq!(FroniusHead::decode(&tree(&text)), Err(DecodeError::Missing));
}

#[test]
fn body_holds_the_payload_under_data() {
    let body = FroniusBody::<FroniusValue>::decode(&tree(r#"{"Data": {"Unit": "W", "Value": 1}}"#));
    assert_eq!(body, Ok(FroniusBody { data: reading("W", Some(1.0)) }));
    assert_eq!(
        FroniusBody::<FroniusValue>::decode(&tree(r#"{"data": {"Unit": "W"}}"#)),
        Err(DecodeError::Missing)
    );
}

#[test]
fn response_is_decoded_for_any_payload() {
    let text = format!("{{\"Body\": {{\"Data\": {}}}, \"Head\": {}}}", SITE, HEAD);
    let response = FroniusResponse::<FroniusSite>::decode(&tree(&text)).unwrap();
    assert_eq!(response.body.data, site());
    assert_eq!(response.head.status.code, 0);
    let text = format!("{{\"Body\": {{\"Data\": {}}}, \"Head\": {}}}", INVERTER, HEAD);
    let response = FroniusResponse::<FroniusCommonInverterData>::decode(&tree(&text)).unwrap();
    assert_eq!(response.body.data.udc, reading("V", Some(399.9)));
}

#[test]
fn response_needs_body_and_head() {
    let text = format!("{{\"Body\": {{\"Data\": {}}}}}", SITE);
    assert_eq!(FroniusResponse::<FroniusSite>::decode(&tree(&text)), Err(DecodeError::Missing));
    let text = format!("{{\"Head\": {}}}", HEAD);
    assert_eq!(FroniusResponse::<FroniusSite>::decode(&tree(&text)), Err(DecodeError::Missing));
    let text = format!("{{\"Body\": [], \"Head\": {}}}", HEAD);
    assert_eq!(FroniusResponse::<FroniusSite>::decode(&tree(&text)), Err(DecodeError::Mismatch));
}

#[test]
fn response_ignores_the_status_that_the_device_reports() {
    let head = HEAD.replace("\"Code\": 0", "\"Code\": 12");
    let text = format!("{{\"Body\": {{\"Data\": {}}}, \"Head\": {}}}", SITE, head);
    let response = FroniusResponse::<FroniusSite>::decode(&tree(&text)).unwrap();
    assert_eq!(response.head.status.code, 12);
    assert_eq!(response.body.data, site());
}
