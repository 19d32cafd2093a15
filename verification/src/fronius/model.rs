//! The response model: what the device reports, as typed values.

use crate::decode::{
    decode_field, decode_optional_field, field, optional_field, Decode, DecodeError,
};
use crate::json::Json;
use crate::quantity::Quantity;
use crate::string_map::StringMap;
use vstd::prelude::*;

verus! {

/// A reading with its unit. The value is absent where the device has no such
/// channel or sensor; the unit is there either way.
#[derive(Debug, Clone, PartialEq, Eq)]
pub struct FroniusValue {
    pub unit: String,
    pub value: Option<Quantity>,
}

/// A `FroniusValue` with its unit by its characters.
pub struct FroniusValueView {
    pub unit: Seq<char>,
    pub value: Option<Quantity>,
}

impl View for FroniusValue {
    type V = FroniusValueView;

    open spec fn view(&self) -> FroniusValueView {
        FroniusValueView { unit: self.unit@, value: self.value }
    }
}

impl FroniusValueView {
    /// The value, with zero standing for an absent one.
    pub open spec fn or_zero(self) -> Quantity {
        match self.value {
            Some(q) => q,
            None => Quantity::zero(),
        }
    }
}

impl FroniusValue {
    /// The value, with zero standing for an absent one.
    pub fn or_zero(&self) -> (q: Quantity)
        ensures
            q == self@.or_zero(),
    {
        match self.value {
            Some(q) => q,
            None => Quantity::zero(),
        }
    }
}

/// The electrical readings of one inverter: the AC side, up to four DC
/// strings, and the energy counters.
#[derive(Debug, Clone, PartialEq, Eq)]
pub struct FroniusCommonInverterData {
    pub day_energy: FroniusValue,
    pub iac: FroniusValue,
    pub idc: FroniusValue,
    pub idc_2: FroniusValue,
    pub idc_3: FroniusValue,
    pub idc_4: FroniusValue,
    pub pac: FroniusValue,
    pub sac: FroniusValue,
    pub total_energy: FroniusValue,
    pub uac: FroniusValue,
    pub udc: FroniusValue,
    pub udc_2: FroniusValue,
    pub udc_3: FroniusValue,
    pub udc_4: FroniusValue,
    pub year_energy: FroniusValue,
}

/// A `FroniusCommonInverterData` with every reading by its view.
pub struct FroniusCommonInverterDataView {
    pub day_energy: FroniusValueView,
    pub iac: FroniusValueView,
    pub idc: FroniusValueView,
    pub idc_2: FroniusValueView,
    pub idc_3: FroniusValueView,
    pub idc_4: FroniusValueView,
    pub pac: FroniusValueView,
    pub sac: FroniusValueView,
    pub total_energy: FroniusValueView,
    pub uac: FroniusValueView,
    pub udc: FroniusValueView,
    pub udc_2: FroniusValueView,
    pub udc_3: FroniusValueView,
    pub udc_4: FroniusValueView,
    pub year_energy: FroniusValueView,
}

impl View for FroniusCommonInverterData {
    type V = FroniusCommonInverterDataView;

    open spec fn view(&self) -> FroniusCommonInverterDataView {
        FroniusCommonInverterDataView {
            day_energy: self.day_energy@,
            iac: self.iac@,
            idc: self.idc@,
            idc_2: self.idc_2@,
            idc_3: self.idc_3@,
            idc_4: self.idc_4@,
            pac: self.pac@,
            sac: self.sac@,
            total_energy: self.total_energy@,
            uac: self.uac@,
            udc: self.udc@,
            udc_2: self.udc_2@,
            udc_3: self.udc_3@,
            udc_4: self.udc_4@,
            year_energy: self.year_energy@,
        }
    }
}

/// The power balance of the site at one instant.
#[derive(Debug, Clone, Copy, PartialEq, Eq)]
pub struct FroniusSite {
    pub backup_mode: bool,
    pub battery_standby: bool,
    pub power_grid: Quantity,
    pub power_akku: Quantity,
    pub power_load: Quantity,
    pub power_pv: Quantity,
    pub rel_autonomy: Quantity,
    pub rel_self_consumption: Option<Quantity>,
}

/// The power-flow payload: the site's balance, one level down.
#[derive(Debug, Clone, Copy, PartialEq, Eq)]
pub struct FroniusPowerFlowData {
    pub site: FroniusSite,
}

/// What the controller of one storage device reports.
#[derive(Debug, Clone, Copy, PartialEq, Eq)]
pub struct FroniusStorageControllerData {
    pub capacity: Quantity,
    pub current_dc: Quantity,
    pub rel_charge: Quantity,
    pub voltage_dc: Quantity,
    pub temperature_cell: Quantity,
    pub enable: u32,
}

/// One storage device.
#[derive(Debug, Clone, Copy, PartialEq, Eq)]
pub struct FroniusStorageDeviceData {
    pub controller: FroniusStorageControllerData,
}

/// The storage payload: the storage devices by identifier.
#[derive(Debug, PartialEq, Eq)]
pub struct FroniusStorageData(pub StringMap<FroniusStorageDeviceData>);

/// What one meter reports.
#[derive(Debug, Clone, Copy, PartialEq, Eq)]
pub struct FroniusMeterDeviceData {
    pub power_real: Quantity,
    pub energy_real_consumed: Quantity,
    pub energy_real_produced: Quantity,
}

/// The meter payload: the meters by identifier.
#[derive(Debug, PartialEq, Eq)]
pub struct FroniusMeterData(pub StringMap<FroniusMeterDeviceData>);

impl View for FroniusSite {
    type V = FroniusSite;

    open spec fn view(&self) -> FroniusSite {
        *self
    }
}

impl View for FroniusPowerFlowData {
    type V = FroniusPowerFlowData;

    open spec fn view(&self) -> FroniusPowerFlowData {
        *self
    }
}

impl View for FroniusStorageControllerData {
    type V = FroniusStorageControllerData;

    open spec fn view(&self) -> FroniusStorageControllerData {
        *self
    }
}

impl View for FroniusStorageDeviceData {
    type V = FroniusStorageDeviceData;

    open spec fn view(&self) -> FroniusStorageDeviceData {
        *self
    }
}

impl View for FroniusMeterDeviceData {
    type V = FroniusMeterDeviceData;

    open spec fn view(&self) -> FroniusMeterDeviceData {
        *self
    }
}

impl View for FroniusStorageData {
    type V = Seq<(Seq<char>, FroniusStorageDeviceData)>;

    open spec fn view(&self) -> Seq<(Seq<char>, FroniusStorageDeviceData)> {
        self.0@
    }
}

impl View for FroniusMeterData {
    type V = Seq<(Seq<char>, FroniusMeterDeviceData)>;

    open spec fn view(&self) -> Seq<(Seq<char>, FroniusMeterDeviceData)> {
        self.0@
    }
}

impl Decode for FroniusValue {
    /// An object with the text `Unit` and, where the channel exists, the
    /// number `Value`: a `Value` that is left out or `null` is an absent one.
    open spec fn decoded(json: Json) -> Result<FroniusValueView, DecodeError> {
        let unit = field::<String>(json, "Unit"@);
        let value = optional_field::<Quantity>(json, "Value"@);
        if unit is Err {
            Err(unit->Err_0)
        } else if value is Err {
            Err(value->Err_0)
        } else {
            Ok(FroniusValueView { unit: unit->Ok_0, value: value->Ok_0 })
        }
    }

    fn decode(json: &Json) -> (result: Result<FroniusValue, DecodeError>) {
        let unit = decode_field::<String>(json, "Unit")?;
        let value = decode_optional_field::<Quantity>(json, "Value")?;
        Ok(FroniusValue { unit, value })
    }
}

impl Decode for FroniusCommonInverterData {
    /// An object with a reading under each of the fifteen upper-case keys.
    /// Where several members fail, the error is that of the first in the
    /// order of the fields.
    open spec fn decoded(json: Json) -> Result<FroniusCommonInverterDataView, DecodeError> {
        let day_energy = field::<FroniusValue>(json, "DAY_ENERGY"@);
        let iac = field::<FroniusValue>(json, "IAC"@);
        let idc = field::<FroniusValue>(json, "IDC"@);
        let idc_2 = field::<FroniusValue>(json, "IDC_2"@);
        let idc_3 = field::<FroniusValue>(json, "IDC_3"@);
        let idc_4 = field::<FroniusValue>(json, "IDC_4"@);
        let pac = field::<FroniusValue>(json, "PAC"@);
        let sac = field::<FroniusValue>(json, "SAC"@);
        let total_energy = field::<FroniusValue>(json, "TOTAL_ENERGY"@);
        let uac = field::<FroniusValue>(json, "UAC"@);
        let udc = field::<FroniusValue>(json, "UDC"@);
        let udc_2 = field::<FroniusValue>(json, "UDC_2"@);
        let udc_3 = field::<FroniusValue>(json, "UDC_3"@);
        let udc_4 = field::<FroniusValue>(json, "UDC_4"@);
        let year_energy = field::<FroniusValue>(json, "YEAR_ENERGY"@);
        if day_energy is Err {
            Err(day_energy->Err_0)
        } else if iac is Err {
            Err(iac->Err_0)
        } else if idc is Err {
            Err(idc->Err_0)
        } else if idc_2 is Err {
            Err(idc_2->Err_0)
        } else if idc_3 is Err {
            Err(idc_3->Err_0)
        } else if idc_4 is Err {
            Err(idc_4->Err_0)
        } else if pac is Err {
            Err(pac->Err_0)
        } else if sac is Err {
            Err(sac->Err_0)
        } else if total_energy is Err {
            Err(total_energy->Err_0)
        } else if uac is Err {
            Err(uac->Err_0)
        } else if udc is Err {
            Err(udc->Err_0)
        } else if udc_2 is Err {
            Err(udc_2->Err_0)
        } else if udc_3 is Err {
            Err(udc_3->Err_0)
        } else if udc_4 is Err {
            Err(udc_4->Err_0)
        } else if year_energy is Err {
            Err(year_energy->Err_0)
        } else {
            Ok(
                FroniusCommonInverterDataView {
                    day_energy: day_energy->Ok_0,
                    iac: iac->Ok_0,
                    idc: idc->Ok_0,
                    idc_2: idc_2->Ok_0,
                    idc_3: idc_3->Ok_0,
                    idc_4: idc_4->Ok_0,
                    pac: pac->Ok_0,
                    sac: sac->Ok_0,
                    total_energy: total_energy->Ok_0,
                    uac: uac->Ok_0,
                    udc: udc->Ok_0,
                    udc_2: udc_2->Ok_0,
                    udc_3: udc_3->Ok_0,
                    udc_4: udc_4->Ok_0,
                    year_energy: year_energy->Ok_0,
                },
            )
        }
    }

    fn decode(json: &Json) -> (result: Result<FroniusCommonInverterData, DecodeError>) {
        let day_energy = decode_field::<FroniusValue>(json, "DAY_ENERGY")?;
        let iac = decode_field::<FroniusValue>(json, "IAC")?;
        let idc = decode_field::<FroniusValue>(json, "IDC")?;
        let idc_2 = decode_field::<FroniusValue>(json, "IDC_2")?;
        let idc_3 = decode_field::<FroniusValue>(json, "IDC_3")?;
        let idc_4 = decode_field::<FroniusValue>(json, "IDC_4")?;
        let pac = decode_field::<FroniusValue>(json, "PAC")?;
        let sac = decode_field::<FroniusValue>(json, "SAC")?;
        let total_energy = decode_field::<FroniusValue>(json, "TOTAL_ENERGY")?;
        let uac = decode_field::<FroniusValue>(json, "UAC")?;
        let udc = decode_field::<FroniusValue>(json, "UDC")?;
        let udc_2 = decode_field::<FroniusValue>(json, "UDC_2")?;
        let udc_3 = decode_field::<FroniusValue>(json, "UDC_3")?;
        let udc_4 = decode_field::<FroniusValue>(json, "UDC_4")?;
        let year_energy = decode_field::<FroniusValue>(json, "YEAR_ENERGY")?;
        Ok(
            FroniusCommonInverterData {
                day_energy,
                iac,
                idc,
                idc_2,
                idc_3,
                idc_4,
                pac,
                sac,
                total_energy,
                uac,
                udc,
                udc_2,
                udc_3,
                udc_4,
                year_energy,
            },
        )
    }
}

impl Decode for FroniusSite {
    /// An object with the two flags and the five powers and ratios; the
    /// self-consumption ratio may be left out or be `null`.
    open spec fn decoded(json: Json) -> Result<FroniusSite, DecodeError> {
        let backup_mode = field::<bool>(json, "BackupMode"@);
        let battery_standby = field::<bool>(json, "BatteryStandby"@);
        let power_grid = field::<Quantity>(json, "P_Grid"@);
        let power_akku = field::<Quantity>(json, "P_Akku"@);
        let power_load = field::<Quantity>(json, "P_Load"@);
        let power_pv = field::<Quantity>(json, "P_PV"@);
        let rel_autonomy = field::<Quantity>(json, "rel_Autonomy"@);
        let rel_self_consumption = optional_field::<Quantity>(json, "rel_SelfConsumption"@);
        if backup_mode is Err {
            Err(backup_mode->Err_0)
        } else if battery_standby is Err {
            Err(battery_standby->Err_0)
        } else if power_grid is Err {
            Err(power_grid->Err_0)
        } else if power_akku is Err {
            Err(power_akku->Err_0)
        } else if power_load is Err {
            Err(power_load->Err_0)
        } else if power_pv is Err {
            Err(power_pv->Err_0)
        } else if rel_autonomy is Err {
            Err(rel_autonomy->Err_0)
        } else if rel_self_consumption is Err {
            Err(rel_self_consumption->Err_0)
        } else {
            Ok(
                FroniusSite {
                    backup_mode: backup_mode->Ok_0,
                    battery_standby: battery_standby->Ok_0,
                    power_grid: power_grid->Ok_0,
                    power_akku: power_akku->Ok_0,
                    power_load: power_load->Ok_0,
                    power_pv: power_pv->Ok_0,
                    rel_autonomy: rel_autonomy->Ok_0,
                    rel_self_consumption: rel_self_consumption->Ok_0,
                },
            )
        }
    }

    fn decode(json: &Json) -> (result: Result<FroniusSite, DecodeError>) {
        let backup_mode = decode_field::<bool>(json, "BackupMode")?;
        let battery_standby = decode_field::<bool>(json, "BatteryStandby")?;
        let power_grid = decode_field::<Quantity>(json, "P_Grid")?;
        let power_akku = decode_field::<Quantity>(json, "P_Akku")?;
        let power_load = decode_field::<Quantity>(json, "P_Load")?;
        let power_pv = decode_field::<Quantity>(json, "P_PV")?;
        let rel_autonomy = decode_field::<Quantity>(json, "rel_Autonomy")?;
        let rel_self_consumption = decode_optional_field::<Quantity>(json, "rel_SelfConsumption")?;
        Ok(
            FroniusSite {
                backup_mode,
                battery_standby,
                power_grid,
                power_akku,
                power_load,
                power_pv,
                rel_autonomy,
                rel_self_consumption,
            },
        )
    }
}

impl Decode for FroniusPowerFlowData {
    /// An object with the site's balance under `Site`.
    open spec fn decoded(json: Json) -> Result<FroniusPowerFlowData, DecodeError> {
        let site = field::<FroniusSite>(json, "Site"@);
        if site is Err {
            Err(site->Err_0)
        } else {
            Ok(
                FroniusPowerFlowData {
                    site: site->Ok_0,
                },
            )
        }
    }

    fn decode(json: &Json) -> (result: Result<FroniusPowerFlowData, DecodeError>) {
        let site = decode_field::<FroniusSite>(json, "Site")?;
        Ok(FroniusPowerFlowData { site })
    }
}

impl Decode for FroniusStorageControllerData {
    /// An object with the five readings and the enable code.
    open spec fn decoded(json: Json) -> Result<FroniusStorageControllerData, DecodeError> {
        let capacity = field::<Quantity>(json, "Capacity_Maximum"@);
        let current_dc = field::<Quantity>(json, "Current_DC"@);
        let rel_charge = field::<Quantity>(json, "StateOfCharge_Relative"@);
        let voltage_dc = field::<Quantity>(json, "Voltage_DC"@);
        let temperature_cell = field::<Quantity>(json, "Temperature_Cell"@);
        let enable = field::<u32>(json, "Enable"@);
        if capacity is Err {
            Err(capacity->Err_0)
        } else if current_dc is Err {
            Err(current_dc->Err_0)
        } else if rel_charge is Err {
            Err(rel_charge->Err_0)
        } else if voltage_dc is Err {
            Err(voltage_dc->Err_0)
        } else if temperature_cell is Err {
            Err(temperature_cell->Err_0)
        } else if enable is Err {
            Err(enable->Err_0)
        } else {
            Ok(
                FroniusStorageControllerData {
                    capacity: capacity->Ok_0,
                    current_dc: current_dc->Ok_0,
                    rel_charge: rel_charge->Ok_0,
                    voltage_dc: voltage_dc->Ok_0,
                    temperature_cell: temperature_cell->Ok_0,
                    enable: enable->Ok_0,
                },
            )
        }
    }

    fn decode(json: &Json) -> (result: Result<FroniusStorageControllerData, DecodeError>) {
        let capacity = decode_field::<Quantity>(json, "Capacity_Maximum")?;
        let current_dc = decode_field::<Quantity>(json, "Current_DC")?;
        let rel_charge = decode_field::<Quantity>(json, "StateOfCharge_Relative")?;
        let voltage_dc = decode_field::<Quantity>(json, "Voltage_DC")?;
        let temperature_cell = decode_field::<Quantity>(json, "Temperature_Cell")?;
        let enable = decode_field::<u32>(json, "Enable")?;
        Ok(
            FroniusStorageControllerData {
                capacity,
                current_dc,
                rel_charge,
                voltage_dc,
                temperature_cell,
                enable,
            },
        )
    }
}

impl Decode for FroniusStorageDeviceData {
    /// An object with the controller's readings under `Controller`.
    open spec fn decoded(json: Json) -> Result<FroniusStorageDeviceData, DecodeError> {
        let controller = field::<FroniusStorageControllerData>(json, "Controller"@);
        if controller is Err {
            Err(controller->Err_0)
        } else {
            Ok(
                FroniusStorageDeviceData {
                    controller: controller->Ok_0,
                },
            )
        }
    }

    fn decode(json: &Json) -> (result: Result<FroniusStorageDeviceData, DecodeError>) {
        let controller = decode_field::<FroniusStorageControllerData>(json, "Controller")?;
        Ok(FroniusStorageDeviceData { controller })
    }
}

impl Decode for FroniusMeterDeviceData {
    /// An object with the real power and the two energy counters.
    open spec fn decoded(json: Json) -> Result<FroniusMeterDeviceData, DecodeError> {
        let power_real = field::<Quantity>(json, "PowerReal_P_Sum"@);
        let energy_real_consumed = field::<Quantity>(json, "EnergyReal_WAC_Sum_Consumed"@);
        let energy_real_produced = field::<Quantity>(json, "EnergyReal_WAC_Sum_Produced"@);
        if power_real is Err {
            Err(power_real->Err_0)
        } else if energy_real_consumed is Err {
            Err(energy_real_consumed->Err_0)
        } else if energy_real_produced is Err {
            Err(energy_real_produced->Err_0)
        } else {
            Ok(
                FroniusMeterDeviceData {
                    power_real: power_real->Ok_0,
                    energy_real_consumed: energy_real_consumed->Ok_0,
                    energy_real_produced: energy_real_produced->Ok_0,
                },
            )
        }
    }

    fn decode(json: &Json) -> (result: Result<FroniusMeterDeviceData, DecodeError>) {
        let power_real = decode_field::<Quantity>(json, "PowerReal_P_Sum")?;
        let energy_real_consumed = decode_field::<Quantity>(json, "EnergyReal_WAC_Sum_Consumed")?;
        let energy_real_produced = decode_field::<Quantity>(json, "EnergyReal_WAC_Sum_Produced")?;
        Ok(FroniusMeterDeviceData { power_real, energy_real_consumed, energy_real_produced })
    }
}

impl Decode for FroniusStorageData {
    /// An object with one storage device under each key.
    open spec fn decoded(json: Json) -> Result<
        Seq<(Seq<char>, FroniusStorageDeviceData)>,
        DecodeError,
    > {
        StringMap::<FroniusStorageDeviceData>::decoded(json)
    }

    fn decode(json: &Json) -> (result: Result<FroniusStorageData, DecodeError>) {
        Ok(FroniusStorageData(StringMap::<FroniusStorageDeviceData>::decode(json)?))
    }
}

impl Decode for FroniusMeterData {
    /// An object with one meter under each key.
    open spec fn decoded(json: Json) -> Result<
        Seq<(Seq<char>, FroniusMeterDeviceData)>,
        DecodeError,
    > {
        StringMap::<FroniusMeterDeviceData>::decoded(json)
    }

    fn decode(json: &Json) -> (result: Result<FroniusMeterData, DecodeError>) {
        Ok(FroniusMeterData(StringMap::<FroniusMeterDeviceData>::decode(json)?))
    }
}

/// The payload of a response, one level below `Body`.
#[derive(Debug, PartialEq, Eq)]
pub struct FroniusBody<D> {
    pub data: D,
}

/// A `FroniusBody` with its payload by its view.
pub struct FroniusBodyView<V> {
    pub data: V,
}

impl<D: View> View for FroniusBody<D> {
    type V = FroniusBodyView<D::V>;

    open spec fn view(&self) -> FroniusBodyView<D::V> {
        FroniusBodyView { data: self.data@ }
    }
}

/// The status that the device reports of a request.
#[derive(Debug, PartialEq, Eq)]
pub struct FroniusStatus {
    pub code: u32,
    pub reason: String,
    pub user_message: String,
}

/// A `FroniusStatus` with its texts by their characters.
pub struct FroniusStatusView {
    pub code: u32,
    pub reason: Seq<char>,
    pub user_message: Seq<char>,
}

impl View for FroniusStatus {
    type V = FroniusStatusView;

    open spec fn view(&self) -> FroniusStatusView {
        FroniusStatusView {
            code: self.code,
            reason: self.reason@,
            user_message: self.user_message@,
        }
    }
}

/// The head of a response: the arguments that the device read from the
/// request, and its status.
#[derive(Debug, PartialEq, Eq)]
pub struct FroniusHead {
    pub request_arguments: StringMap<String>,
    pub status: FroniusStatus,
}

/// A `FroniusHead` with its parts by their views.
pub struct FroniusHeadView {
    pub request_arguments: Seq<(Seq<char>, Seq<char>)>,
    pub status: FroniusStatusView,
}

impl View for FroniusHead {
    type V = FroniusHeadView;

    open spec fn view(&self) -> FroniusHeadView {
        FroniusHeadView { request_arguments: self.request_arguments@, status: self.status@ }
    }
}

/// The envelope of every response. Only `body.data` carries telemetry.
#[derive(Debug, PartialEq, Eq)]
pub struct FroniusResponse<D> {
    pub body: FroniusBody<D>,
    pub head: FroniusHead,
}

/// A `FroniusResponse` with its parts by their views.
pub struct FroniusResponseView<V> {
    pub body: FroniusBodyView<V>,
    pub head: FroniusHeadView,
}

impl<D: View> View for FroniusResponse<D> {
    type V = FroniusResponseView<D::V>;

    open spec fn view(&self) -> FroniusResponseView<D::V> {
        FroniusResponseView { body: self.body@, head: self.head@ }
    }
}

impl<D: Decode> Decode for FroniusBody<D> {
    /// An object with the payload under `Data`.
    open spec fn decoded(json: Json) -> Result<FroniusBodyView<D::V>, DecodeError> {
        let data = field::<D>(json, "Data"@);
        if data is Err {
            Err(data->Err_0)
        } else {
            Ok(FroniusBodyView { data: data->Ok_0 })
        }
    }

    fn decode(json: &Json) -> (result: Result<FroniusBody<D>, DecodeError>) {
        let data = decode_field::<D>(json, "Data")?;
        Ok(FroniusBody { data })
    }
}

impl Decode for FroniusStatus {
    /// An object with the number `Code` and the texts `Reason` and `UserMessage`.
    open spec fn decoded(json: Json) -> Result<FroniusStatusView, DecodeError> {
        let code = field::<u32>(json, "Code"@);
        let reason = field::<String>(json, "Reason"@);
        let user_message = field::<String>(json, "UserMessage"@);
        if code is Err {
            Err(code->Err_0)
        } else if reason is Err {
            Err(reason->Err_0)
        } else if user_message is Err {
            Err(user_message->Err_0)
        } else {
            Ok(
                FroniusStatusView {
                    code: code->Ok_0,
                    reason: reason->Ok_0,
                    user_message: user_message->Ok_0,
                },
            )
        }
    }

    fn decode(json: &Json) -> (result: Result<FroniusStatus, DecodeError>) {
        let code = decode_field::<u32>(json, "Code")?;
        let reason = decode_field::<String>(json, "Reason")?;
        let user_message = decode_field::<String>(json, "UserMessage")?;
        Ok(FroniusStatus { code, reason, user_message })
    }
}

impl Decode for FroniusHead {
    /// An object with the texts of `RequestArguments` and the `Status`.
    open spec fn decoded(json: Json) -> Result<FroniusHeadView, DecodeError> {
        let request_arguments = field::<StringMap<String>>(json, "RequestArguments"@);
        let status = field::<FroniusStatus>(json, "Status"@);
        if request_arguments is Err {
            Err(request_arguments->Err_0)
        } else if status is Err {
            Err(status->Err_0)
        } else {
            Ok(
                FroniusHeadView {
                    request_arguments: request_arguments->Ok_0,
                    status: status->Ok_0,
                },
            )
        }
    }

    fn decode(json: &Json) -> (result: Result<FroniusHead, DecodeError>) {
        let request_arguments = decode_field::<StringMap<String>>(json, "RequestArguments")?;
        let status = decode_field::<FroniusStatus>(json, "Status")?;
        Ok(FroniusHead { request_arguments, status })
    }
}

impl<D: Decode> Decode for FroniusResponse<D> {
    /// An object with the `Body` and the `Head`.
    open spec fn decoded(json: Json) -> Result<FroniusResponseView<D::V>, DecodeError> {
        let body = field::<FroniusBody<D>>(json, "Body"@);
        let head = field::<FroniusHead>(json, "Head"@);
        if body is Err {
            Err(body->Err_0)
        } else if head is Err {
            Err(head->Err_0)
        } else {
            Ok(FroniusResponseView { body: body->Ok_0, head: head->Ok_0 })
        }
    }

    fn decode(json: &Json) -> (result: Result<FroniusResponse<D>, DecodeError>) {
        let body = decode_field::<FroniusBody<D>>(json, "Body")?;
        let head = decode_field::<FroniusHead>(json, "Head")?;
        Ok(FroniusResponse { body, head })
    }
}

/// Where each of the fifteen readings of an inverter decodes, the inverter
/// decodes, and each of its readings is what the member under its key
/// decodes to: the unit as the document wrote it, and the value or its absence.
pub proof fn lemma_inverter_field_by_field(json: Json)
    requires
        field::<FroniusValue>(json, "DAY_ENERGY"@) is Ok,
        field::<FroniusValue>(json, "IAC"@) is Ok,
        field::<FroniusValue>(json, "IDC"@) is Ok,
        field::<FroniusValue>(json, "IDC_2"@) is Ok,
        field::<FroniusValue>(json, "IDC_3"@) is Ok,
        field::<FroniusValue>(json, "IDC_4"@) is Ok,
        field::<FroniusValue>(json, "PAC"@) is Ok,
        field::<FroniusValue>(json, "SAC"@) is Ok,
        field::<FroniusValue>(json, "TOTAL_ENERGY"@) is Ok,
        field::<FroniusValue>(json, "UAC"@) is Ok,
        field::<FroniusValue>(json, "UDC"@) is Ok,
        field::<FroniusValue>(json, "UDC_2"@) is Ok,
        field::<FroniusValue>(json, "UDC_3"@) is Ok,
        field::<FroniusValue>(json, "UDC_4"@) is Ok,
        field::<FroniusValue>(json, "YEAR_ENERGY"@) is Ok,
    ensures
        FroniusCommonInverterData::decoded(json) == Ok::<
            FroniusCommonInverterDataView,
            DecodeError,
        >(
            FroniusCommonInverterDataView {
                day_energy: FroniusValue::decoded(json.member("DAY_ENERGY"@)->0)->Ok_0,
                iac: FroniusValue::decoded(json.member("IAC"@)->0)->Ok_0,
                idc: FroniusValue::decoded(json.member("IDC"@)->0)->Ok_0,
                idc_2: FroniusValue::decoded(json.member("IDC_2"@)->0)->Ok_0,
                idc_3: FroniusValue::decoded(json.member("IDC_3"@)->0)->Ok_0,
                idc_4: FroniusValue::decoded(json.member("IDC_4"@)->0)->Ok_0,
                pac: FroniusValue::decoded(json.member("PAC"@)->0)->Ok_0,
                sac: FroniusValue::decoded(json.member("SAC"@)->0)->Ok_0,
                total_energy: FroniusValue::decoded(json.member("TOTAL_ENERGY"@)->0)->Ok_0,
                uac: FroniusValue::decoded(json.member("UAC"@)->0)->Ok_0,
                udc: FroniusValue::decoded(json.member("UDC"@)->0)->Ok_0,
                udc_2: FroniusValue::decoded(json.member("UDC_2"@)->0)->Ok_0,
                udc_3: FroniusValue::decoded(json.member("UDC_3"@)->0)->Ok_0,
                udc_4: FroniusValue::decoded(json.member("UDC_4"@)->0)->Ok_0,
                year_energy: FroniusValue::decoded(json.member("YEAR_ENERGY"@)->0)->Ok_0,
            },
        ),
{
}

/// What a reading decodes to keeps the unit of the document, and has a value
/// exactly where the document gives a number for it.
pub proof fn lemma_value_keeps_unit(json: Json)
    requires
        FroniusValue::decoded(json) is Ok,
    ensures
        json.member("Unit"@) matches Some(Json::Text(unit)) && FroniusValue::decoded(
            json,
        )->Ok_0.unit == unit@,
        FroniusValue::decoded(json)->Ok_0.value is Some <==> json.member("Value"@) matches Some(
            Json::Number(_),
        ),
{
}

} // verus!
