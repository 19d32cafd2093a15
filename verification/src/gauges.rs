//! From decoded payloads to gauge observations.
//!
//! An observation names a gauge, perhaps with one label, and gives the value
//! to set it to. The functions here only compute the observations; setting
//! the gauges is left to the caller.

use crate::decode::{Decode, DecodeError};
use crate::fronius::model::{
    FroniusCommonInverterData, FroniusCommonInverterDataView, FroniusMeterData,
    FroniusMeterDeviceData, FroniusSite, FroniusStorageData, FroniusStorageDeviceData,
    FroniusValue, FroniusValueView,
};
use crate::json::Json;
use crate::quantity::Quantity;
use vstd::prelude::*;
use vstd::string::StringExecFns;

verus! {

pub const INVERTER_TOTAL_ENERGY: &'static str = "fronius_inverter_total_energy";

pub const INVERTER_VOLTAGE_AC: &'static str = "fronius_inverter_voltage_ac";

pub const INVERTER_CURRENT_AC: &'static str = "fronius_inverter_current_ac";

pub const INVERTER_POWER_AC: &'static str = "fronius_inverter_power_ac";

pub const INVERTER_VOLTAGE_DC: &'static str = "fronius_inverter_voltage_dc";

pub const INVERTER_CURRENT_DC: &'static str = "fronius_inverter_current_dc";

pub const INVERTER_APPARENT_POWER_AC: &'static str = "fronius_inverter_apparent_power_ac";

pub const INVERTER_DAY_ENERGY: &'static str = "fronius_inverter_day_energy";

pub const INVERTER_YEAR_ENERGY: &'static str = "fronius_inverter_year_energy";

pub const POWER_BACKUP_MODE: &'static str = "fronius_power_backup_mode";

pub const POWER_BATTERY_STANDBY: &'static str = "fronius_power_battery_standby";

pub const POWER_PV: &'static str = "fronius_power_pv";

pub const POWER_AKKU: &'static str = "fronius_power_akku";

pub const POWER_GRID: &'static str = "fronius_power_grid";

pub const POWER_LOAD: &'static str = "fronius_power_load";

pub const POWER_REL_AUTONOMY: &'static str = "fronius_power_rel_autonomy";

pub const STORAGE_CAPACITY: &'static str = "fronius_storage_capacity";

pub const STORAGE_CURRENT_DC: &'static str = "fronius_storage_current_dc";

pub const STORAGE_REL_CHARGE: &'static str = "fronius_storage_rel_charge";

pub const STORAGE_VOLTAGE_DC: &'static str = "fronius_storage_voltage_dc";

pub const STORAGE_TEMPERATURE_CELL: &'static str = "fronius_storage_temperature_cell";

pub const STORAGE_ENABLE: &'static str = "fronius_storage_enable";

pub const METER_POWER_REAL: &'static str = "fronius_meter_power_real";

pub const METER_ENERGY_REAL_CONSUMED: &'static str = "fronius_meter_energy_real_consumed";

pub const METER_ENERGY_REAL_PRODUCED: &'static str = "fronius_meter_energy_real_produced";

/// The label that tells the DC strings of an inverter apart.
pub const STRING: &'static str = "string";

/// The label that tells the devices of a collection apart.
pub const DEVICE_ID: &'static str = "device_id";

/// The value of a gauge.
#[derive(Clone, Copy, Debug, PartialEq, Eq, Structural)]
pub enum Sample {
    /// A measured quantity.
    Real(Quantity),
    /// A whole number: a flag as 0 or 1, or a small code.
    Count(u32),
}

/// One label of a gauge.
#[derive(Debug, PartialEq, Eq)]
pub struct Label {
    pub key: &'static str,
    pub value: String,
}

/// The instruction to set one gauge.
#[derive(Debug, PartialEq, Eq)]
pub struct Observation {
    pub name: &'static str,
    pub label: Option<Label>,
    pub value: Sample,
}

/// An `Observation` with its texts by their characters; the label as key and value.
pub struct ObservationView {
    pub name: Seq<char>,
    pub label: Option<(Seq<char>, Seq<char>)>,
    pub value: Sample,
}

impl View for Observation {
    type V = ObservationView;

    open spec fn view(&self) -> ObservationView {
        ObservationView {
            name: self.name@,
            label: match self.label {
                Some(label) => Some((label.key@, label.value@)),
                None => None,
            },
            value: self.value,
        }
    }
}

/// The views of the observations, in order.
pub open spec fn views(observations: Seq<Observation>) -> Seq<ObservationView> {
    observations.map_values(|o: Observation| o@)
}

/// The observation of an unlabelled gauge.
pub open spec fn plain(name: &str, value: Sample) -> ObservationView {
    ObservationView { name: name@, label: None, value }
}

/// The observation of a gauge with one label.
pub open spec fn labelled(
    name: &str,
    key: &str,
    label: Seq<char>,
    value: Sample,
) -> ObservationView {
    ObservationView { name: name@, label: Some((key@, label)), value }
}

/// A flag as a gauge value: 1 for set, 0 for clear.
pub open spec fn flag(set: bool) -> Sample {
    Sample::Count(if set { 1 } else { 0 })
}

/// A reading as a gauge value: zero where the reading is absent.
pub open spec fn reading(value: FroniusValueView) -> Sample {
    Sample::Real(value.or_zero())
}

fn push_plain(out: &mut Vec<Observation>, name: &'static str, value: Sample)
    ensures
        views(final(out)@) == views(old(out)@).push(plain(name, value)),
{
    out.push(Observation { name, label: None, value });
    assert(views(out@) =~= views(old(out)@).push(plain(name, value)));
}

fn push_labelled(
    out: &mut Vec<Observation>,
    name: &'static str,
    key: &'static str,
    label: &str,
    value: Sample,
)
    ensures
        views(final(out)@) == views(old(out)@).push(labelled(name, key, label@, value)),
{
    let attached = Label { key, value: String::from_str(label) };
    out.push(Observation { name, label: Some(attached), value });
    assert(views(out@) =~= views(old(out)@).push(labelled(name, key, label@, value)));
}

fn push_reading(out: &mut Vec<Observation>, name: &'static str, value: &FroniusValue)
    ensures
        views(final(out)@) == views(old(out)@).push(plain(name, reading(value@))),
{
    push_plain(out, name, Sample::Real(value.or_zero()));
}

fn push_string(
    out: &mut Vec<Observation>,
    name: &'static str,
    string: &str,
    value: &FroniusValue,
)
    ensures
        views(final(out)@) == views(old(out)@).push(
            labelled(name, STRING, string@, reading(value@)),
        ),
{
    push_labelled(out, name, STRING, string, Sample::Real(value.or_zero()));
}

fn push_device(out: &mut Vec<Observation>, name: &'static str, id: &str, value: Quantity)
    ensures
        views(final(out)@) == views(old(out)@).push(
            labelled(name, DEVICE_ID, id@, Sample::Real(value)),
        ),
{
    push_labelled(out, name, DEVICE_ID, id, Sample::Real(value));
}

/// The gauges of the inverter: one for each reading, the DC readings under
/// the number of their string.
pub open spec fn inverter_observations(data: FroniusCommonInverterDataView) -> Seq<
    ObservationView,
> {
    seq![
        plain(INVERTER_TOTAL_ENERGY, reading(data.total_energy)),
        plain(INVERTER_VOLTAGE_AC, reading(data.uac)),
        plain(INVERTER_CURRENT_AC, reading(data.iac)),
        plain(INVERTER_POWER_AC, reading(data.pac)),
        labelled(INVERTER_VOLTAGE_DC, STRING, "1"@, reading(data.udc)),
        labelled(INVERTER_CURRENT_DC, STRING, "1"@, reading(data.idc)),
        labelled(INVERTER_VOLTAGE_DC, STRING, "2"@, reading(data.udc_2)),
        labelled(INVERTER_CURRENT_DC, STRING, "2"@, reading(data.idc_2)),
        labelled(INVERTER_VOLTAGE_DC, STRING, "3"@, reading(data.udc_3)),
        labelled(INVERTER_CURRENT_DC, STRING, "3"@, reading(data.idc_3)),
        labelled(INVERTER_VOLTAGE_DC, STRING, "4"@, reading(data.udc_4)),
        labelled(INVERTER_CURRENT_DC, STRING, "4"@, reading(data.idc_4)),
        plain(INVERTER_APPARENT_POWER_AC, reading(data.sac)),
        plain(INVERTER_DAY_ENERGY, reading(data.day_energy)),
        plain(INVERTER_YEAR_ENERGY, reading(data.year_energy)),
    ]
}

/// Maps the inverter's readings to observations.
pub fn map_inverter(inverter: &FroniusCommonInverterData) -> (observations: Vec<Observation>)
    ensures
        views(observations@) == inverter_observations(inverter@),
{
    let mut out: Vec<Observation> = Vec::new();
    assert(views(out@) =~= Seq::empty());
    push_reading(&mut out, INVERTER_TOTAL_ENERGY, &inverter.total_energy);
    push_reading(&mut out, INVERTER_VOLTAGE_AC, &inverter.uac);
    push_reading(&mut out, INVERTER_CURRENT_AC, &inverter.iac);
    push_reading(&mut out, INVERTER_POWER_AC, &inverter.pac);
    push_string(&mut out, INVERTER_VOLTAGE_DC, "1", &inverter.udc);
    push_string(&mut out, INVERTER_CURRENT_DC, "1", &inverter.idc);
    push_string(&mut out, INVERTER_VOLTAGE_DC, "2", &inverter.udc_2);
    push_string(&mut out, INVERTER_CURRENT_DC, "2", &inverter.idc_2);
    push_string(&mut out, INVERTER_VOLTAGE_DC, "3", &inverter.udc_3);
    push_string(&mut out, INVERTER_CURRENT_DC, "3", &inverter.idc_3);
    push_string(&mut out, INVERTER_VOLTAGE_DC, "4", &inverter.udc_4);
    push_string(&mut out, INVERTER_CURRENT_DC, "4", &inverter.idc_4);
    push_reading(&mut out, INVERTER_APPARENT_POWER_AC, &inverter.sac);
    push_reading(&mut out, INVERTER_DAY_ENERGY, &inverter.day_energy);
    push_reading(&mut out, INVERTER_YEAR_ENERGY, &inverter.year_energy);
    assert(views(out@) =~= inverter_observations(inverter@));
    out
}

/// The gauges of the site's power balance.
pub open spec fn power_flow_observations(site: FroniusSite) -> Seq<ObservationView> {
    seq![
        plain(POWER_BACKUP_MODE, flag(site.backup_mode)),
        plain(POWER_BATTERY_STANDBY, flag(site.battery_standby)),
        plain(POWER_PV, Sample::Real(site.power_pv)),
        plain(POWER_AKKU, Sample::Real(site.power_akku)),
        plain(POWER_GRID, Sample::Real(site.power_grid)),
        plain(POWER_LOAD, Sample::Real(site.power_load)),
        plain(POWER_REL_AUTONOMY, Sample::Real(site.rel_autonomy)),
    ]
}

/// A flag as a gauge value: 1 for set, 0 for clear.
fn count_flag(set: bool) -> (sample: Sample)
    ensures
        sample == flag(set),
{
    Sample::Count(if set { 1 } else { 0 })
}

/// Maps the site's power balance to observations.
pub fn map_power_flow(site: &FroniusSite) -> (observations: Vec<Observation>)
    ensures
        views(observations@) == power_flow_observations(*site),
{
    let mut out: Vec<Observation> = Vec::new();
    assert(views(out@) =~= Seq::empty());
    push_plain(&mut out, POWER_BACKUP_MODE, count_flag(site.backup_mode));
    push_plain(&mut out, POWER_BATTERY_STANDBY, count_flag(site.battery_standby));
    push_plain(&mut out, POWER_PV, Sample::Real(site.power_pv));
    push_plain(&mut out, POWER_AKKU, Sample::Real(site.power_akku));
    push_plain(&mut out, POWER_GRID, Sample::Real(site.power_grid));
    push_plain(&mut out, POWER_LOAD, Sample::Real(site.power_load));
    push_plain(&mut out, POWER_REL_AUTONOMY, Sample::Real(site.rel_autonomy));
    assert(views(out@) =~= power_flow_observations(*site));
    out
}

/// Which gauges a storage device gets.
#[derive(Clone, Copy, Debug, PartialEq, Eq, Structural)]
pub enum StorageDetail {
    /// Capacity, DC current, relative charge and DC voltage.
    Basic,
    /// Those four, then the cell temperature and the enable code.
    Extended,
}

/// The gauges of the storage device `id`, each labelled with it.
pub open spec fn storage_device_observations(
    id: Seq<char>,
    device: FroniusStorageDeviceData,
    detail: StorageDetail,
) -> Seq<ObservationView> {
    let controller = device.controller;
    let basic = seq![
        labelled(STORAGE_CAPACITY, DEVICE_ID, id, Sample::Real(controller.capacity)),
        labelled(STORAGE_CURRENT_DC, DEVICE_ID, id, Sample::Real(controller.current_dc)),
        labelled(STORAGE_REL_CHARGE, DEVICE_ID, id, Sample::Real(controller.rel_charge)),
        labelled(STORAGE_VOLTAGE_DC, DEVICE_ID, id, Sample::Real(controller.voltage_dc)),
    ];
    match detail {
        StorageDetail::Basic => basic,
        StorageDetail::Extended => basic + seq![
            labelled(
                STORAGE_TEMPERATURE_CELL,
                DEVICE_ID,
                id,
                Sample::Real(controller.temperature_cell),
            ),
            labelled(STORAGE_ENABLE, DEVICE_ID, id, Sample::Count(controller.enable)),
        ],
    }
}

/// The gauges of the meter `id`, each labelled with it.
pub open spec fn meter_device_observations(id: Seq<char>, device: FroniusMeterDeviceData) -> Seq<
    ObservationView,
> {
    seq![
        labelled(METER_POWER_REAL, DEVICE_ID, id, Sample::Real(device.power_real)),
        labelled(
            METER_ENERGY_REAL_CONSUMED,
            DEVICE_ID,
            id,
            Sample::Real(device.energy_real_consumed),
        ),
        labelled(
            METER_ENERGY_REAL_PRODUCED,
            DEVICE_ID,
            id,
            Sample::Real(device.energy_real_produced),
        ),
    ]
}

/// What `of` gives for each device, device after device in the order of `devices`.
pub open spec fn per_device<T>(
    devices: Seq<(Seq<char>, T)>,
    of: spec_fn(Seq<char>, T) -> Seq<ObservationView>,
) -> Seq<ObservationView>
    decreases devices.len(),
{
    if devices.len() == 0 {
        Seq::empty()
    } else {
        per_device(devices.drop_last(), of) + of(devices.last().0, devices.last().1)
    }
}

/// The gauges of all storage devices.
pub open spec fn storage_observations(
    devices: Seq<(Seq<char>, FroniusStorageDeviceData)>,
    detail: StorageDetail,
) -> Seq<ObservationView> {
    per_device(
        devices,
        |id: Seq<char>, device: FroniusStorageDeviceData|
            storage_device_observations(id, device, detail),
    )
}

/// The gauges of all meters.
pub open spec fn meter_observations(devices: Seq<(Seq<char>, FroniusMeterDeviceData)>) -> Seq<
    ObservationView,
> {
    per_device(
        devices,
        |id: Seq<char>, device: FroniusMeterDeviceData| meter_device_observations(id, device),
    )
}

/// Maps the storage devices to observations, device after device.
pub fn map_storage(storage: &FroniusStorageData, detail: StorageDetail) -> (observations: Vec<
    Observation,
>)
    ensures
        views(observations@) == storage_observations(storage@, detail),
{
    let ghost of = |id: Seq<char>, device: FroniusStorageDeviceData|
        storage_device_observations(id, device, detail);
    let mut out: Vec<Observation> = Vec::new();
    assert(views(out@) =~= Seq::empty());
    let mut i: usize = 0;
    while i < storage.0.len()
        invariant
            i <= storage@.len(),
            of == |id: Seq<char>, device: FroniusStorageDeviceData|
                storage_device_observations(id, device, detail),
            views(out@) == per_device(storage@.take(i as int), of),
        decreases storage@.len() - i,
    {
        let (key, device) = storage.0.entry(i);
        let id = key.as_str();
        let controller = device.controller;
        let ghost before = views(out@);
        push_device(&mut out, STORAGE_CAPACITY, id, controller.capacity);
        push_device(&mut out, STORAGE_CURRENT_DC, id, controller.current_dc);
        push_device(&mut out, STORAGE_REL_CHARGE, id, controller.rel_charge);
        push_device(&mut out, STORAGE_VOLTAGE_DC, id, controller.voltage_dc);
        match detail {
            StorageDetail::Basic => {},
            StorageDetail::Extended => {
                let enable = Sample::Count(controller.enable);
                push_device(&mut out, STORAGE_TEMPERATURE_CELL, id, controller.temperature_cell);
                push_labelled(&mut out, STORAGE_ENABLE, DEVICE_ID, id, enable);
            },
        }
        proof {
            let upto = storage@.take(i + 1);
            assert(upto.drop_last() =~= storage@.take(i as int));
            assert(upto.last() == storage@[i as int]);
            assert(views(out@) =~= before + of(id@, device@));
        }
        i += 1;
    }
    assert(storage@.take(i as int) =~= storage@);
    out
}

/// Maps the meters to observations, meter after meter.
pub fn map_meter(meter: &FroniusMeterData) -> (observations: Vec<Observation>)
    ensures
        views(observations@) == meter_observations(meter@),
{
    let ghost of = |id: Seq<char>, device: FroniusMeterDeviceData|
        meter_device_observations(id, device);
    let mut out: Vec<Observation> = Vec::new();
    assert(views(out@) =~= Seq::empty());
    let mut i: usize = 0;
    while i < meter.0.len()
        invariant
            i <= meter@.len(),
            of == |id: Seq<char>, device: FroniusMeterDeviceData|
                meter_device_observations(id, device),
            views(out@) == per_device(meter@.take(i as int), of),
        decreases meter@.len() - i,
    {
        let (key, device) = meter.0.entry(i);
        let id = key.as_str();
        let ghost before = views(out@);
        push_device(&mut out, METER_POWER_REAL, id, device.power_real);
        push_device(&mut out, METER_ENERGY_REAL_CONSUMED, id, device.energy_real_consumed);
        push_device(&mut out, METER_ENERGY_REAL_PRODUCED, id, device.energy_real_produced);
        proof {
            let upto = meter@.take(i + 1);
            assert(upto.drop_last() =~= meter@.take(i as int));
            assert(upto.last() == meter@[i as int]);
            assert(views(out@) =~= before + of(id@, device@));
        }
        i += 1;
    }
    assert(meter@.take(i as int) =~= meter@);
    out
}

/// A reading whose value the document gives as `null`, or leaves out,
/// decodes to an absent value, keeps its unit, and is exported as zero.
pub proof fn lemma_null_value_reads_zero(json: Json, unit: String)
    requires
        json is Object,
        json.member("Unit"@) == Some(Json::Text(unit)),
        json.member("Value"@) == Some(Json::Null) || json.member("Value"@) is None,
    ensures
        FroniusValue::decoded(json) == Ok::<FroniusValueView, DecodeError>(
            FroniusValueView { unit: unit@, value: None },
        ),
        reading(FroniusValue::decoded(json)->Ok_0) == Sample::Real(Quantity { bits: 0 }),
{
}

/// The gauges of DC string 3 carry the readings of string 3, and no other
/// gauge depends on them: two inverters that differ in those two readings
/// alone differ in those two gauges alone.
pub proof fn lemma_string_three(a: FroniusCommonInverterDataView, b: FroniusCommonInverterDataView)
    requires
        b == (FroniusCommonInverterDataView { udc_3: b.udc_3, idc_3: b.idc_3, ..a }),
    ensures
        inverter_observations(a)[8] == labelled(
            INVERTER_VOLTAGE_DC,
            STRING,
            "3"@,
            reading(a.udc_3),
        ),
        inverter_observations(a)[9] == labelled(
            INVERTER_CURRENT_DC,
            STRING,
            "3"@,
            reading(a.idc_3),
        ),
        inverter_observations(a).len() == inverter_observations(b).len(),
        forall|i: int|
            0 <= i < inverter_observations(a).len() && i != 8 && i != 9
                ==> inverter_observations(a)[i] == inverter_observations(b)[i],
{
}

/// Where every device gets `width` gauges, the gauges of the device at
/// position `k` stand at the positions from `width * k` on, and all the
/// gauges are those of the devices.
pub proof fn lemma_per_device_block<T>(
    devices: Seq<(Seq<char>, T)>,
    of: spec_fn(Seq<char>, T) -> Seq<ObservationView>,
    width: nat,
    k: int,
)
    requires
        forall|id: Seq<char>, device: T| (#[trigger] of(id, device)).len() == width,
        0 <= k < devices.len(),
    ensures
        per_device(devices, of).len() == width * devices.len(),
        0 <= width * k,
        width * k + width <= per_device(devices, of).len(),
        per_device(devices, of).subrange(width * k, width * k + width) == of(
            devices[k].0,
            devices[k].1,
        ),
    decreases devices.len(),
{
    let front = devices.drop_last();
    let last = of(devices.last().0, devices.last().1);
    lemma_per_device_len(front, of, width);
    lemma_per_device_len(devices, of, width);
    assert(width * k >= 0 && width * k + width <= width * devices.len()) by (nonlinear_arith)
        requires
            0 <= k < devices.len(),
    ;
    assert(width * front.len() + width == width * devices.len()) by (nonlinear_arith)
        requires
            front.len() + 1 == devices.len(),
    ;
    if k == devices.len() - 1 {
        assert(per_device(devices, of).subrange(width * k, width * k + width) =~= last);
    } else {
        lemma_per_device_block(front, of, width, k);
        assert(front[k] == devices[k]);
        assert(per_device(devices, of).subrange(width * k, width * k + width)
            =~= per_device(front, of).subrange(width * k, width * k + width));
    }
}

/// Where every device gets `width` gauges, there are `width` gauges for each device.
pub proof fn lemma_per_device_len<T>(
    devices: Seq<(Seq<char>, T)>,
    of: spec_fn(Seq<char>, T) -> Seq<ObservationView>,
    width: nat,
)
    requires
        forall|id: Seq<char>, device: T| (#[trigger] of(id, device)).len() == width,
    ensures
        per_device(devices, of).len() == width * devices.len(),
    decreases devices.len(),
{
    if devices.len() > 0 {
        let front = devices.drop_last();
        lemma_per_device_len(front, of, width);
        assert(width * front.len() + width == width * devices.len()) by (nonlinear_arith)
            requires
                front.len() + 1 == devices.len(),
        ;
    } else {
        assert(width * devices.len() == 0) by (nonlinear_arith)
            requires
                devices.len() == 0,
        ;
    }
}

/// The number of gauges that a storage device gets.
pub open spec fn storage_width(detail: StorageDetail) -> nat {
    match detail {
        StorageDetail::Basic => 4,
        StorageDetail::Extended => 6,
    }
}

/// Every storage device gets its own set of gauges, each labelled with the
/// device's identifier and holding the device's readings, and there are no
/// other gauges: four for each device, six with the extended detail.
pub proof fn lemma_storage_by_device(
    devices: Seq<(Seq<char>, FroniusStorageDeviceData)>,
    detail: StorageDetail,
    k: int,
)
    requires
        0 <= k < devices.len(),
    ensures
        storage_observations(devices, detail).len() == storage_width(detail) * devices.len(),
        storage_width(detail) * k + storage_width(detail) <= storage_observations(
            devices,
            detail,
        ).len(),
        storage_observations(devices, detail).subrange(
            storage_width(detail) * k,
            storage_width(detail) * k + storage_width(detail),
        ) == storage_device_observations(devices[k].0, devices[k].1, detail),
        forall|j: int|
            0 <= j < storage_width(detail) ==> (#[trigger] storage_observations(
                devices,
                detail,
            )[storage_width(detail) * k + j]).label == Some((DEVICE_ID@, devices[k].0)),
{
    let of = |id: Seq<char>, device: FroniusStorageDeviceData|
        storage_device_observations(id, device, detail);
    let width = storage_width(detail);
    lemma_per_device_block(devices, of, width, k);
    let all = storage_observations(devices, detail);
    let block = storage_device_observations(devices[k].0, devices[k].1, detail);
    assert forall|j: int| 0 <= j < width implies (#[trigger] all[width * k + j]).label == Some(
        (DEVICE_ID@, devices[k].0),
    ) by {
        assert(all.subrange(width * k, width * k + width)[j] == all[width * k + j]);
        assert(block[j].label == Some((DEVICE_ID@, devices[k].0)));
    }
}

/// Every meter gets its own three gauges, each labelled with the meter's
/// identifier and holding the meter's readings, and there are no other gauges.
pub proof fn lemma_meter_by_device(devices: Seq<(Seq<char>, FroniusMeterDeviceData)>, k: int)
    requires
        0 <= k < devices.len(),
    ensures
        meter_observations(devices).len() == 3 * devices.len(),
        3 * k + 3 <= meter_observations(devices).len(),
        meter_observations(devices).subrange(3 * k, 3 * k + 3) == meter_device_observations(
            devices[k].0,
            devices[k].1,
        ),
        forall|j: int|
            0 <= j < 3 ==> (#[trigger] meter_observations(devices)[3 * k + j]).label == Some(
                (DEVICE_ID@, devices[k].0),
            ),
{
    let of = |id: Seq<char>, device: FroniusMeterDeviceData| meter_device_observations(id, device);
    lemma_per_device_block(devices, of, 3, k);
    let all = meter_observations(devices);
    let block = meter_device_observations(devices[k].0, devices[k].1);
    assert forall|j: int| 0 <= j < 3 implies (#[trigger] all[3 * k + j]).label == Some(
        (DEVICE_ID@, devices[k].0),
    ) by {
        assert(all.subrange(3 * k, 3 * k + 3)[j] == all[3 * k + j]);
        assert(block[j].label == Some((DEVICE_ID@, devices[k].0)));
    }
}

} // verus!
