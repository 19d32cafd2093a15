//! The telemetry client, without the transport.
//!
//! The client says which request to make for a data domain and reads the
//! reply that the caller obtained for it. It never touches the network.

use crate::decode::{lemma_decoded_entries_distinct, Decode, DecodeError};
use crate::fronius::model::{
    FroniusCommonInverterData, FroniusMeterData, FroniusMeterDeviceData,
    FroniusPowerFlowData, FroniusResponse, FroniusSite, FroniusStorageData,
    FroniusStorageDeviceData,
};
use crate::json::{json_document, parse, Json};
use crate::string_map::distinct_keys;
use crate::text::{decimal, join3, to_decimal};
use vstd::prelude::*;
use vstd::string::StringExecFns;

verus! {

/// One of the four kinds of telemetry.
#[derive(Clone, Copy, Debug, PartialEq, Eq, Structural)]
pub enum Domain {
    PowerFlow,
    Storage,
    Inverter,
    Meter,
}

/// The endpoint of the power flow.
pub const POWER_FLOW_PATH: &'static str = "/solar_api/v1/GetPowerFlowRealtimeData.fcgi";

/// The endpoint of the storage devices.
pub const STORAGE_PATH: &'static str = "/solar_api/v1/GetStorageRealtimeData.cgi";

/// The endpoint of the inverter's readings, with its query.
pub const INVERTER_PATH: &'static str =
    "/solar_api/v1/GetInverterRealtimeData.cgi?Scope=Device&DataCollection=CommonInverterData";

/// The endpoint of the meters.
pub const METER_PATH: &'static str = "/solar_api/v1/GetMeterRealtimeData.cgi";

impl Domain {
    /// The path and query of the domain's endpoint.
    pub open spec fn spec_path(self) -> &'static str {
        match self {
            Domain::PowerFlow => POWER_FLOW_PATH,
            Domain::Storage => STORAGE_PATH,
            Domain::Inverter => INVERTER_PATH,
            Domain::Meter => METER_PATH,
        }
    }

    /// The path and query of the domain's endpoint.
    #[verifier::when_used_as_spec(spec_path)]
    pub fn path(self) -> (path: &'static str)
        ensures
            path == self.spec_path(),
    {
        match self {
            Domain::PowerFlow => POWER_FLOW_PATH,
            Domain::Storage => STORAGE_PATH,
            Domain::Inverter => INVERTER_PATH,
            Domain::Meter => METER_PATH,
        }
    }
}

impl Domain {
    /// The domain's name in messages.
    pub open spec fn spec_name(self) -> &'static str {
        match self {
            Domain::PowerFlow => "power flow",
            Domain::Storage => "storage",
            Domain::Inverter => "inverter",
            Domain::Meter => "meter",
        }
    }

    /// The domain's name in messages.
    #[verifier::when_used_as_spec(spec_name)]
    pub fn name(self) -> (name: &'static str)
        ensures
            name == self.spec_name(),
    {
        match self {
            Domain::PowerFlow => "power flow",
            Domain::Storage => "storage",
            Domain::Inverter => "inverter",
            Domain::Meter => "meter",
        }
    }
}

/// Why a domain gave no data.
#[derive(Clone, Copy, Debug, PartialEq, Eq, Structural)]
pub enum ClientError {
    /// The device answered with an HTTP status other than 200.
    Transport { status: u16 },
    /// The body does not have the shape of the domain's response.
    Decode(DecodeError),
    /// No answer came: the connection failed or the request timed out.
    Network,
}

impl ClientError {
    /// The error in words; a transport error with its status in decimal.
    pub open spec fn spec_message(self) -> Seq<char> {
        match self {
            ClientError::Transport { status } => "HTTP status "@ + decimal(status as nat),
            ClientError::Decode(error) => error.message()@,
            ClientError::Network => "no answer"@,
        }
    }

    /// The error in words; a transport error with its status in decimal.
    pub fn message(&self) -> (message: String)
        ensures
            message@ == self.spec_message(),
    {
        match self {
            ClientError::Transport { status } => {
                let mut message = String::from_str("HTTP status ");
                message.append(to_decimal(*status as u64).as_str());
                message
            },
            ClientError::Decode(error) => String::from_str(error.message()),
            ClientError::Network => String::from_str("no answer"),
        }
    }

    /// The line that records the failure of `domain`: the name of the domain,
    /// a colon, and the error in words.
    pub open spec fn spec_failure(self, domain: Domain) -> Seq<char> {
        "Fronius "@ + domain.name()@ + ": "@ + self.spec_message()
    }

    /// The line that records the failure of `domain`.
    pub fn failure(&self, domain: Domain) -> (line: String)
        ensures
            line@ == self.spec_failure(domain),
    {
        let mut line = join3("Fronius ", domain.name(), ": ");
        line.append(self.message().as_str());
        line
    }
}

/// How an HTTP exchange ended.
#[derive(Debug, PartialEq, Eq)]
pub enum Reply {
    /// The device answered.
    Answer { status: u16, body: Vec<u8> },
    /// No answer came.
    Failed,
}

/// The method of a request. The device is only ever read.
#[derive(Clone, Copy, Debug, PartialEq, Eq, Structural)]
pub enum Method {
    Get,
}

/// A request to make: the method, the address, and the seconds that the
/// exchange may take before it counts as failed.
#[derive(Debug, PartialEq, Eq)]
pub struct Request {
    pub method: Method,
    pub url: String,
    pub timeout_sec: u32,
}

/// The payload of a parsed body, or why there is none.
pub open spec fn payload_of<D: Decode>(document: Option<Json>) -> Result<D::V, ClientError> {
    match document {
        None => Err(ClientError::Decode(DecodeError::Syntax)),
        Some(json) => match FroniusResponse::<D>::decoded(json) {
            Err(error) => Err(ClientError::Decode(error)),
            Ok(response) => Ok(response.body.data),
        },
    }
}

/// What a reply gives: the payload of the body of a reply with status 200, or
/// the error of any other reply.
pub open spec fn answer<D: Decode>(reply: Reply) -> Result<D::V, ClientError> {
    match reply {
        Reply::Failed => Err(ClientError::Network),
        Reply::Answer { status, body } => if status != 200 {
            Err(ClientError::Transport { status })
        } else {
            payload_of::<D>(json_document(body@))
        },
    }
}

/// A result with its value by its view.
pub open spec fn answer_view<T: View>(result: Result<T, ClientError>) -> Result<T::V, ClientError> {
    match result {
        Ok(value) => Ok(value@),
        Err(error) => Err(error),
    }
}

/// Takes the payload out of a parsed body.
pub fn unwrap_document<D: Decode>(document: Option<Json>) -> (result: Result<D, ClientError>)
    ensures
        answer_view(result) == payload_of::<D>(document),
{
    match document {
        None => Err(ClientError::Decode(DecodeError::Syntax)),
        Some(json) => match FroniusResponse::<D>::decode(&json) {
            Err(error) => Err(ClientError::Decode(error)),
            Ok(response) => Ok(response.body.data),
        },
    }
}

/// The client of one device.
#[derive(Debug, PartialEq, Eq)]
pub struct FroniusClient {
    host: String,
    timeout_sec: u32,
}

/// What a client was made with.
pub struct FroniusClientView {
    pub host: Seq<char>,
    pub timeout_sec: u32,
}

impl View for FroniusClient {
    type V = FroniusClientView;

    closed spec fn view(&self) -> FroniusClientView {
        FroniusClientView { host: self.host@, timeout_sec: self.timeout_sec }
    }
}

impl FroniusClient {
    /// A client for the device at `host`, whose requests may take
    /// `fronius_timeout_sec` seconds each.
    pub fn new(host: &str, fronius_timeout_sec: u32) -> (client: Self)
        ensures
            client@ == (FroniusClientView { host: host@, timeout_sec: fronius_timeout_sec }),
    {
        FroniusClient { host: String::from_str(host), timeout_sec: fronius_timeout_sec }
    }

    /// The address that `domain` is fetched from.
    pub open spec fn url(self, domain: Domain) -> Seq<char> {
        "http://"@ + self@.host + domain.path()@
    }

    /// The request that fetches `domain`.
    pub fn request(&self, domain: Domain) -> (request: Request)
        ensures
            request.method == Method::Get,
            request.url@ == self.url(domain),
            request.timeout_sec == self@.timeout_sec,
    {
        Request {
            method: Method::Get,
            url: join3("http://", self.host.as_str(), domain.path()),
            timeout_sec: self.timeout_sec,
        }
    }

    /// Reads the reply to a request: the payload of a reply with status 200
    /// whose body is an envelope around a payload of type `D`.
    pub fn execute_request<D: Decode>(&self, reply: &Reply) -> (result: Result<D, ClientError>)
        ensures
            answer_view(result) == answer::<D>(*reply),
    {
        match reply {
            Reply::Failed => Err(ClientError::Network),
            Reply::Answer { status, body } => {
                if *status != 200 {
                    Err(ClientError::Transport { status: *status })
                } else {
                    unwrap_document::<D>(parse(body.as_slice()))
                }
            },
        }
    }

    /// Reads the reply to the request for the inverter's readings.
    pub fn get_common_inverter_data(&self, reply: &Reply) -> (result: Result<
        FroniusCommonInverterData,
        ClientError,
    >)
        ensures
            answer_view(result) == answer::<FroniusCommonInverterData>(*reply),
    {
        self.execute_request::<FroniusCommonInverterData>(reply)
    }

    /// Reads the reply to the request for the power flow: the site's balance,
    /// out of the payload that wraps it.
    pub fn get_power_flow_data(&self, reply: &Reply) -> (result: Result<FroniusSite, ClientError>)
        ensures
            result == match answer::<FroniusPowerFlowData>(*reply) {
                Ok(data) => Ok::<FroniusSite, ClientError>(data.site),
                Err(error) => Err::<FroniusSite, ClientError>(error),
            },
    {
        match self.execute_request::<FroniusPowerFlowData>(reply) {
            Ok(data) => Ok(data.site),
            Err(error) => Err(error),
        }
    }

    /// Reads the reply to the request for the storage devices.
    pub fn get_storage_data(&self, reply: &Reply) -> (result: Result<
        FroniusStorageData,
        ClientError,
    >)
        ensures
            answer_view(result) == answer::<FroniusStorageData>(*reply),
    {
        self.execute_request::<FroniusStorageData>(reply)
    }

    /// Reads the reply to the request for the meters.
    pub fn get_meter_data(&self, reply: &Reply) -> (result: Result<FroniusMeterData, ClientError>)
        ensures
            answer_view(result) == answer::<FroniusMeterData>(*reply),
    {
        self.execute_request::<FroniusMeterData>(reply)
    }
}

/// A reply with a status other than 200 is a transport error that carries
/// the status, whatever the domain and whatever the body.
pub proof fn lemma_status_decides<D: Decode>(status: u16, body: Vec<u8>)
    requires
        status != 200,
    ensures
        answer::<D>(Reply::Answer { status, body }) == Err::<D::V, ClientError>(
            ClientError::Transport { status },
        ),
{
}

/// Only a reply with status 200 gives data, and it does so exactly where its
/// body is a JSON document that decodes as the envelope of the payload.
pub proof fn lemma_answer_is_ok<D: Decode>(reply: Reply)
    ensures
        answer::<D>(reply) is Ok <==> {
            &&& reply matches Reply::Answer { status, body }
            &&& status == 200
            &&& json_document(body@) matches Some(json)
            &&& FroniusResponse::<D>::decoded(json) is Ok
        },
{
}

/// The storage devices and the meters that a reply gives each stand under
/// an identifier of their own: none occurs twice.
pub proof fn lemma_devices_are_distinct(reply: Reply)
    ensures
        answer::<FroniusStorageData>(reply) matches Ok(devices) ==> distinct_keys(devices),
        answer::<FroniusMeterData>(reply) matches Ok(devices) ==> distinct_keys(devices),
{
    if let Reply::Answer { status, body } = reply {
        if let Some(json) = json_document(body@) {
            if let Some(data) = json.member("Body"@) {
                if let Some(payload) = data.member("Data"@) {
                    lemma_decoded_entries_distinct::<FroniusStorageDeviceData>(payload.members());
                    lemma_decoded_entries_distinct::<FroniusMeterDeviceData>(payload.members());
                }
            }
        }
    }
}

} // verus!
