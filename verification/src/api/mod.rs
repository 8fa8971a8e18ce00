//! Decisions behind the REST interface: what each endpoint answers from the
//! register store, and how the outcome of a write is reported.

pub mod auth;
pub mod ws;

use crate::config::{
    device_with_id, find_device, register_named, DeviceConfig, DeviceConfigView, RegisterType,
};
use crate::modbus::reader::{RegisterValue, RegisterValueView};
use crate::modbus::store::{
    distinct_names, is_latest, lookup, register_map, Missing, RegisterStore,
};
use crate::text::clone_optional;
use vstd::prelude::*;

verus! {

broadcast use vstd::string::group_string_axioms;

/// Release of the bridge, as reported by the health and info endpoints.
pub const VERSION: &'static str = "0.1.0";

/// Broadcast channel capacity for WebSocket updates
pub const BROADCAST_CAPACITY: usize = 1024;

/// HTTP status codes the API answers with.
pub const OK: u16 = 200;

pub const NOT_FOUND: u16 = 404;

pub const INTERNAL_SERVER_ERROR: u16 = 500;

pub const BAD_GATEWAY: u16 = 502;

pub const SERVICE_UNAVAILABLE: u16 = 503;

pub const GATEWAY_TIMEOUT: u16 = 504;

/// Register update message for WebSocket broadcast. `value` is the
/// engineering value as binary64 bits, `timestamp` is RFC 3339 text.
#[derive(Debug)]
pub struct RegisterUpdate {
    pub device_id: String,
    pub register_name: String,
    pub value: u64,
    pub raw: Vec<u16>,
    pub unit: Option<String>,
    pub timestamp: String,
}

pub struct RegisterUpdateView {
    pub device_id: Seq<char>,
    pub register_name: Seq<char>,
    pub value: u64,
    pub raw: Seq<u16>,
    pub unit: Option<Seq<char>>,
    pub timestamp: Seq<char>,
}

impl DeepView for RegisterUpdate {
    type V = RegisterUpdateView;

    open spec fn deep_view(&self) -> RegisterUpdateView {
        RegisterUpdateView {
            device_id: self.device_id@,
            register_name: self.register_name@,
            value: self.value,
            raw: self.raw@,
            unit: self.unit.deep_view(),
            timestamp: self.timestamp@,
        }
    }
}

impl Clone for RegisterUpdate {
    fn clone(&self) -> (copy: Self)
        ensures
            copy.deep_view() == self.deep_view(),
    {
        RegisterUpdate {
            device_id: self.device_id.clone(),
            register_name: self.register_name.clone(),
            value: self.value,
            raw: self.raw.clone(),
            unit: clone_optional(&self.unit),
            timestamp: self.timestamp.clone(),
        }
    }
}

impl RegisterUpdate {
    /// The update that announces a register value of a device.
    pub open spec fn announcing(device_id: Seq<char>, value: RegisterValueView) -> RegisterUpdateView {
        RegisterUpdateView {
            device_id,
            register_name: value.name,
            value: value.value,
            raw: value.raw,
            unit: value.unit,
            timestamp: value.timestamp.text(),
        }
    }

    /// Builds the update that announces a register value of a device.
    pub fn from_value(device_id: &str, value: &RegisterValue) -> (update: RegisterUpdate)
        ensures
            update.deep_view() == Self::announcing(device_id@, value.deep_view()),
    {
        RegisterUpdate {
            device_id: device_id.to_string(),
            register_name: value.name.clone(),
            value: value.value,
            raw: value.raw.clone(),
            unit: clone_optional(&value.unit),
            timestamp: value.timestamp.to_rfc3339(),
        }
    }
}

/// API error response
#[derive(Debug)]
pub struct ApiError {
    pub error: String,
    pub code: u16,
    pub details: Option<String>,
}

pub struct ApiErrorView {
    pub error: Seq<char>,
    pub code: u16,
    pub details: Option<Seq<char>>,
}

impl DeepView for ApiError {
    type V = ApiErrorView;

    open spec fn deep_view(&self) -> ApiErrorView {
        ApiErrorView { error: self.error@, code: self.code, details: self.details.deep_view() }
    }
}

impl ApiError {
    pub fn new(code: u16, error: &str) -> (made: Self)
        ensures
            made.deep_view() == (ApiErrorView { error: error@, code, details: None }),
    {
        Self { error: error.to_string(), code, details: None }
    }

    pub fn with_details(code: u16, error: &str, details: &str) -> (made: Self)
        ensures
            made.deep_view() == (ApiErrorView { error: error@, code, details: Some(details@) }),
    {
        Self { error: error.to_string(), code, details: Some(details.to_string()) }
    }
}

/// The 404 answer for an unknown device.
pub open spec fn device_not_found() -> ApiErrorView {
    ApiErrorView { error: "Device not found"@, code: NOT_FOUND, details: None }
}

/// The 404 answer for an unknown register of a known device.
pub open spec fn register_not_found() -> ApiErrorView {
    ApiErrorView { error: "Register not found"@, code: NOT_FOUND, details: None }
}

/// Health check response
#[derive(Debug)]
pub struct HealthResponse {
    pub status: &'static str,
    pub version: &'static str,
}

/// Liveness and version.
pub fn health() -> (response: HealthResponse)
    ensures
        response.status@ == "ok"@,
        response.version@ == VERSION@,
{
    HealthResponse { status: "ok", version: VERSION }
}

/// One line of the endpoint catalog.
#[derive(Debug)]
pub struct EndpointInfo {
    pub method: &'static str,
    pub path: &'static str,
    pub description: &'static str,
}

pub struct EndpointInfoView {
    pub method: Seq<char>,
    pub path: Seq<char>,
    pub description: Seq<char>,
}

impl DeepView for EndpointInfo {
    type V = EndpointInfoView;

    open spec fn deep_view(&self) -> EndpointInfoView {
        EndpointInfoView { method: self.method@, path: self.path@, description: self.description@ }
    }
}

/// API info response
#[derive(Debug)]
pub struct ApiInfoResponse {
    pub name: &'static str,
    pub version: &'static str,
    pub description: &'static str,
    pub endpoints: Vec<EndpointInfo>,
}

/// One catalog line.
pub open spec fn endpoint(method: Seq<char>, path: Seq<char>, description: Seq<char>) -> EndpointInfoView {
    EndpointInfoView { method, path, description }
}

/// The endpoints of the API, in the order they are listed.
pub open spec fn endpoint_catalog() -> Seq<EndpointInfoView> {
    seq![
        endpoint("GET"@, "/health"@, "Health check"@),
        endpoint("GET"@, "/api/info"@, "API information"@),
        endpoint("GET"@, "/api/devices"@, "List all devices"@),
        endpoint("GET"@, "/api/devices/:device_id"@, "Get device details"@),
        endpoint("GET"@, "/api/devices/:device_id/registers"@, "List device registers"@),
        endpoint("GET"@, "/api/devices/:device_id/registers/:name"@, "Get register value"@),
        endpoint("POST"@, "/api/devices/:device_id/registers/:name"@, "Write register value"@),
        endpoint("GET"@, "/ws"@, "WebSocket for real-time updates"@),
        endpoint("GET"@, "/metrics"@, "Prometheus metrics endpoint"@),
    ]
}

fn make_endpoint(method: &'static str, path: &'static str, description: &'static str) -> (made:
    EndpointInfo)
    ensures
        made.deep_view() == endpoint(method@, path@, description@),
{
    EndpointInfo { method, path, description }
}

/// `GET /api/info`: name, version and the endpoint catalog.
pub fn api_info() -> (info: ApiInfoResponse)
    ensures
        info.name@ == "RustBridge API"@,
        info.version@ == VERSION@,
        info.description@
            == "Industrial Protocol Bridge - Modbus TCP/RTU to JSON/MQTT Gateway"@,
        info.endpoints.deep_view() == endpoint_catalog(),
{
    let mut endpoints: Vec<EndpointInfo> = Vec::new();
    endpoints.push(make_endpoint("GET", "/health", "Health check"));
    endpoints.push(make_endpoint("GET", "/api/info", "API information"));
    endpoints.push(make_endpoint("GET", "/api/devices", "List all devices"));
    endpoints.push(make_endpoint("GET", "/api/devices/:device_id", "Get device details"));
    endpoints.push(
        make_endpoint("GET", "/api/devices/:device_id/registers", "List device registers"),
    );
    endpoints.push(
        make_endpoint("GET", "/api/devices/:device_id/registers/:name", "Get register value"),
    );
    endpoints.push(
        make_endpoint("POST", "/api/devices/:device_id/registers/:name", "Write register value"),
    );
    endpoints.push(make_endpoint("GET", "/ws", "WebSocket for real-time updates"));
    endpoints.push(make_endpoint("GET", "/metrics", "Prometheus metrics endpoint"));
    assert(endpoints.deep_view() =~= endpoint_catalog());
    ApiInfoResponse {
        name: "RustBridge API",
        version: VERSION,
        description: "Industrial Protocol Bridge - Modbus TCP/RTU to JSON/MQTT Gateway",
        endpoints,
    }
}

/// Answer of the metrics endpoint.
#[derive(Debug)]
pub struct MetricsResponse {
    pub status: u16,
    pub content_type: &'static str,
    pub body: String,
}

/// `GET /metrics`: the rendered metrics in the Prometheus text format where
/// metrics are enabled, else 503.
pub fn metrics_handler(rendered: Option<String>) -> (response: MetricsResponse)
    ensures
        match rendered {
            Some(text) => {
                &&& response.status == OK
                &&& response.content_type@ == "text/plain; version=0.0.4; charset=utf-8"@
                &&& response.body@ == text@
            },
            None => {
                &&& response.status == SERVICE_UNAVAILABLE
                &&& response.content_type@ == "text/plain; charset=utf-8"@
                &&& response.body@ == "Metrics not enabled"@
            },
        },
{
    match rendered {
        Some(text) => MetricsResponse {
            status: OK,
            content_type: "text/plain; version=0.0.4; charset=utf-8",
            body: text,
        },
        None => MetricsResponse {
            status: SERVICE_UNAVAILABLE,
            content_type: "text/plain; charset=utf-8",
            body: "Metrics not enabled".to_string(),
        },
    }
}

/// One register as the API shows it.
#[derive(Debug)]
pub struct RegisterResponse {
    pub name: String,
    pub value: u64,
    pub raw: Vec<u16>,
    pub unit: Option<String>,
    pub timestamp: String,
}

pub struct RegisterResponseView {
    pub name: Seq<char>,
    pub value: u64,
    pub raw: Seq<u16>,
    pub unit: Option<Seq<char>>,
    pub timestamp: Seq<char>,
}

impl DeepView for RegisterResponse {
    type V = RegisterResponseView;

    open spec fn deep_view(&self) -> RegisterResponseView {
        RegisterResponseView {
            name: self.name@,
            value: self.value,
            raw: self.raw@,
            unit: self.unit.deep_view(),
            timestamp: self.timestamp@,
        }
    }
}

impl RegisterResponse {
    /// A stored value as the API shows it: the same fields, the timestamp as
    /// RFC 3339 text.
    pub open spec fn showing(value: RegisterValueView) -> RegisterResponseView {
        RegisterResponseView {
            name: value.name,
            value: value.value,
            raw: value.raw,
            unit: value.unit,
            timestamp: value.timestamp.text(),
        }
    }

    /// Builds the response for a stored value.
    pub fn from_value(value: &RegisterValue) -> (response: RegisterResponse)
        ensures
            response.deep_view() == Self::showing(value.deep_view()),
    {
        RegisterResponse {
            name: value.name.clone(),
            value: value.value,
            raw: value.raw.clone(),
            unit: clone_optional(&value.unit),
            timestamp: value.timestamp.to_rfc3339(),
        }
    }
}

/// `GET /api/devices/{id}/registers/{name}`: the register, or 404 saying
/// whether the device or the register is unknown.
pub fn get_register(store: &RegisterStore, device_id: &str, register_name: &str) -> (response:
    Result<RegisterResponse, ApiError>)
    ensures
        match response {
            Ok(register) => lookup(store@, device_id@, register_name@) matches Some(value)
                && register.deep_view() == RegisterResponse::showing(value),
            Err(error) => {
                &&& lookup(store@, device_id@, register_name@) is None
                &&& error.deep_view() == if store@.dom().contains(device_id@) {
                    register_not_found()
                } else {
                    device_not_found()
                }
            },
        },
{
    match store.get_register(device_id, register_name) {
        Ok(value) => Ok(RegisterResponse::from_value(&value)),
        Err(Missing::Device) => Err(ApiError::new(NOT_FOUND, "Device not found")),
        Err(Missing::Register) => Err(ApiError::new(NOT_FOUND, "Register not found")),
    }
}

/// Each response shows the value at the same position.
pub open spec fn shows_all(responses: Seq<RegisterResponseView>, values: Seq<RegisterValueView>) -> bool {
    &&& responses.len() == values.len()
    &&& forall|i: int|
        0 <= i < values.len() ==> #[trigger] responses[i] == RegisterResponse::showing(values[i])
}

/// The responses show every register of the device exactly once.
pub open spec fn shows_device(
    responses: Seq<RegisterResponseView>,
    store: Map<Seq<char>, Map<Seq<char>, RegisterValueView>>,
    device_id: Seq<char>,
) -> bool {
    exists|values: Seq<RegisterValueView>|
        {
            &&& distinct_names(values)
            &&& #[trigger] register_map(values) == store[device_id]
            &&& shows_all(responses, values)
        }
}

fn show_registers(values: &Vec<RegisterValue>) -> (responses: Vec<RegisterResponse>)
    ensures
        shows_all(responses.deep_view(), values.deep_view()),
{
    let mut responses: Vec<RegisterResponse> = Vec::new();
    let mut i: usize = 0;
    while i < values.len()
        invariant
            i <= values.len(),
            responses.len() == i,
            forall|j: int|
                0 <= j < i ==> #[trigger] responses.deep_view()[j] == RegisterResponse::showing(
                    values.deep_view()[j],
                ),
        decreases values.len() - i,
    {
        let ghost before = responses.deep_view();
        let response = RegisterResponse::from_value(&values[i]);
        responses.push(response);
        assert(responses.deep_view() =~= before.push(response.deep_view()));
        i += 1;
    }
    responses
}

/// `GET /api/devices/{id}/registers`: every register of the device, each
/// once, in no particular order; 404 for an unknown device.
pub fn get_registers(store: &RegisterStore, device_id: &str) -> (response: Result<
    Vec<RegisterResponse>,
    ApiError,
>)
    ensures
        match response {
            Ok(registers) => store@.dom().contains(device_id@) && registers.len() > 0
                && shows_device(registers.deep_view(), store@, device_id@),
            Err(error) => !store@.dom().contains(device_id@) && error.deep_view()
                == device_not_found(),
        },
{
    match store.get_device(device_id) {
        Some(values) => {
            let responses = show_registers(&values);
            assert(register_map(values.deep_view()) == store@[device_id@]);
            Ok(responses)
        },
        None => Err(ApiError::new(NOT_FOUND, "Device not found")),
    }
}

/// Device detail response
#[derive(Debug)]
pub struct DeviceResponse {
    pub id: String,
    pub registers: Vec<RegisterResponse>,
    pub register_count: usize,
}

/// `GET /api/devices/{id}`: the device with every register, and their
/// number; 404 for an unknown device.
pub fn get_device(store: &RegisterStore, device_id: &str) -> (response: Result<
    DeviceResponse,
    ApiError,
>)
    ensures
        match response {
            Ok(device) => {
                &&& store@.dom().contains(device_id@)
                &&& device.id@ == device_id@
                &&& device.register_count == device.registers.len()
                &&& device.register_count > 0
                &&& shows_device(device.registers.deep_view(), store@, device_id@)
            },
            Err(error) => !store@.dom().contains(device_id@) && error.deep_view()
                == device_not_found(),
        },
{
    match get_registers(store, device_id) {
        Ok(registers) => {
            let register_count = registers.len();
            Ok(DeviceResponse { id: device_id.to_string(), registers, register_count })
        },
        Err(error) => Err(error),
    }
}

/// One line of the device list.
#[derive(Debug)]
pub struct DeviceSummary {
    pub id: String,
    pub register_count: usize,
    pub last_update: Option<String>,
}

/// Device list response
#[derive(Debug)]
pub struct DeviceListResponse {
    pub devices: Vec<DeviceSummary>,
    pub count: usize,
}

/// `GET /api/devices`: one line per device that has a committed value, with
/// the number of its registers and the newest of their timestamps.
pub fn list_devices(store: &RegisterStore) -> (response: DeviceListResponse)
    ensures
        store@.dom().finite(),
        response.count == response.devices.len(),
        response.count == store@.dom().len(),
        forall|device_id: Seq<char>| #[trigger]
            store@.dom().contains(device_id) ==> exists|i: int|
                0 <= i < response.devices.len() && (#[trigger] response.devices[i]).id@
                    == device_id,
        forall|i: int, j: int|
            0 <= i < j < response.devices.len() ==> (#[trigger] response.devices[i]).id@ != (
            #[trigger] response.devices[j]).id@,
        forall|i: int|
            0 <= i < response.devices.len() ==> {
                let line = #[trigger] response.devices[i];
                &&& store@.dom().contains(line.id@)
                &&& store@[line.id@].dom().finite()
                &&& line.register_count == store@[line.id@].dom().len()
                &&& line.register_count > 0
                &&& line.last_update matches Some(text)
                &&& exists|latest: crate::timestamp::Timestamp|
                    is_latest(store@[line.id@], latest) && #[trigger] latest.text() == text@
            },
{
    let listing = store.list_devices();
    let mut devices: Vec<DeviceSummary> = Vec::new();
    let mut i: usize = 0;
    while i < listing.len()
        invariant
            i <= listing.len(),
            devices.len() == i,
            forall|j: int|
                0 <= j < listing.len() ==> {
                    let entry = #[trigger] listing[j];
                    &&& store@.dom().contains(entry.id@)
                    &&& store@[entry.id@].dom().finite()
                    &&& entry.register_count == store@[entry.id@].dom().len()
                    &&& entry.register_count > 0
                    &&& entry.last_update matches Some(latest)
                    &&& is_latest(store@[entry.id@], latest)
                },
            forall|j: int|
                0 <= j < i ==> {
                    let line = #[trigger] devices[j];
                    &&& line.id@ == listing[j].id@
                    &&& line.register_count == listing[j].register_count
                    &&& line.last_update matches Some(text)
                    &&& listing[j].last_update->0.text() == text@
                },
        decreases listing.len() - i,
    {
        let entry = &listing[i];
        let last_update = match &entry.last_update {
            Some(latest) => Some(latest.to_rfc3339()),
            None => None,
        };
        devices.push(
            DeviceSummary {
                id: entry.id.clone(),
                register_count: entry.register_count,
                last_update,
            },
        );
        i += 1;
    }
    proof {
        assert forall|device_id: Seq<char>| #[trigger]
            store@.dom().contains(device_id) implies exists|k: int|
            0 <= k < devices.len() && (#[trigger] devices[k]).id@ == device_id by {
            let k = choose|k: int| 0 <= k < listing.len() && (#[trigger] listing[k]).id@ == device_id;
            assert(devices[k].id@ == device_id);
        }
        assert forall|a: int, b: int| 0 <= a < b < devices.len() implies (#[trigger] devices[a]).id@
            != (#[trigger] devices[b]).id@ by {
            assert(listing[a].id@ != listing[b].id@);
        }
        assert forall|j: int| 0 <= j < devices.len() implies {
            let line = #[trigger] devices[j];
            &&& store@.dom().contains(line.id@)
            &&& store@[line.id@].dom().finite()
            &&& line.register_count == store@[line.id@].dom().len()
            &&& line.register_count > 0
            &&& line.last_update matches Some(text)
            &&& exists|latest: crate::timestamp::Timestamp|
                is_latest(store@[line.id@], latest) && #[trigger] latest.text() == text@
        } by {
            let entry = listing[j];
            let latest = entry.last_update->0;
            assert(is_latest(store@[entry.id@], latest) && latest.text() == devices[j].last_update->0@);
        }
    }
    let count = devices.len();
    DeviceListResponse { devices, count }
}

/// Seconds the API waits for the reply to a write.
pub const WRITE_TIMEOUT_SECS: u64 = 5;

/// Write request sent to the write coordinator. The transport layer pairs it
/// with the channel on which the reply travels back.
#[derive(Debug)]
pub struct WriteRequest {
    pub device_id: String,
    pub address: u16,
    pub value: u16,
}

pub struct WriteRequestView {
    pub device_id: Seq<char>,
    pub address: u16,
    pub value: u16,
}

impl DeepView for WriteRequest {
    type V = WriteRequestView;

    open spec fn deep_view(&self) -> WriteRequestView {
        WriteRequestView { device_id: self.device_id@, address: self.address, value: self.value }
    }
}

/// The 502 answer for a write to a register that is no holding register.
pub open spec fn not_writable() -> ApiErrorView {
    ApiErrorView {
        error: "Modbus write failed"@,
        code: BAD_GATEWAY,
        details: Some("Register is not a holding register"@),
    }
}

/// The write that a request for a register stands for, or its refusal.
///
/// The device and the register must have a committed value and a configured
/// descriptor, else the answer is 404. The write goes to the descriptor's
/// address. Only holding registers are written.
pub open spec fn planned_write(
    store: Map<Seq<char>, Map<Seq<char>, RegisterValueView>>,
    devices: Seq<DeviceConfigView>,
    device_id: Seq<char>,
    register_name: Seq<char>,
    value: u16,
) -> Result<WriteRequestView, ApiErrorView> {
    if !store.dom().contains(device_id) {
        Err(device_not_found())
    } else if !store[device_id].dom().contains(register_name) {
        Err(register_not_found())
    } else {
        match device_with_id(devices, device_id) {
            None => Err(device_not_found()),
            Some(device) => match register_named(device.registers, register_name) {
                None => Err(register_not_found()),
                Some(register) => if register.register_type == RegisterType::Holding {
                    Ok(WriteRequestView { device_id, address: register.address, value })
                } else {
                    Err(not_writable())
                },
            },
        }
    }
}

/// `POST /api/devices/{id}/registers/{name}`, first half: validates the
/// target and resolves the address to write.
pub fn plan_write(
    store: &RegisterStore,
    devices: &Vec<DeviceConfig>,
    device_id: &str,
    register_name: &str,
    value: u16,
) -> (plan: Result<WriteRequest, ApiError>)
    ensures
        match plan {
            Ok(request) => planned_write(
                store@,
                devices.deep_view(),
                device_id@,
                register_name@,
                value,
            ) == Ok::<WriteRequestView, ApiErrorView>(request.deep_view()),
            Err(error) => planned_write(
                store@,
                devices.deep_view(),
                device_id@,
                register_name@,
                value,
            ) == Err::<WriteRequestView, ApiErrorView>(error.deep_view()),
        },
{
    match store.get_register(device_id, register_name) {
        Err(Missing::Device) => {
            return Err(ApiError::new(NOT_FOUND, "Device not found"));
        },
        Err(Missing::Register) => {
            return Err(ApiError::new(NOT_FOUND, "Register not found"));
        },
        Ok(_) => {},
    }
    let device = match find_device(devices, device_id) {
        Some(i) => &devices[i],
        None => {
            return Err(ApiError::new(NOT_FOUND, "Device not found"));
        },
    };
    let register = match device.find_register(register_name) {
        Some(k) => &device.registers[k],
        None => {
            return Err(ApiError::new(NOT_FOUND, "Register not found"));
        },
    };
    match register.register_type {
        RegisterType::Holding => Ok(
            WriteRequest { device_id: device_id.to_string(), address: register.address, value },
        ),
        _ => Err(
            ApiError::with_details(
                BAD_GATEWAY,
                "Modbus write failed",
                "Register is not a holding register",
            ),
        ),
    }
}

/// How a write request ended.
#[derive(Debug)]
pub enum WriteOutcome {
    /// The request could not be queued for the write coordinator.
    Unavailable,
    /// No reply came within `WRITE_TIMEOUT_SECS`.
    TimedOut,
    /// The reply channel was dropped without a reply.
    ReplyLost,
    /// The device or the coordinator refused the write, with its reason.
    Refused(String),
    /// The device acknowledged the write.
    Written,
}

pub enum WriteOutcomeView {
    Unavailable,
    TimedOut,
    ReplyLost,
    Refused(Seq<char>),
    Written,
}

impl DeepView for WriteOutcome {
    type V = WriteOutcomeView;

    open spec fn deep_view(&self) -> WriteOutcomeView {
        match self {
            WriteOutcome::Unavailable => WriteOutcomeView::Unavailable,
            WriteOutcome::TimedOut => WriteOutcomeView::TimedOut,
            WriteOutcome::ReplyLost => WriteOutcomeView::ReplyLost,
            WriteOutcome::Refused(reason) => WriteOutcomeView::Refused(reason@),
            WriteOutcome::Written => WriteOutcomeView::Written,
        }
    }
}

/// Write register response
#[derive(Debug)]
pub struct WriteRegisterResponse {
    pub success: bool,
    pub device_id: String,
    pub register_name: String,
    pub value_written: u16,
    pub message: String,
}

pub struct WriteRegisterResponseView {
    pub success: bool,
    pub device_id: Seq<char>,
    pub register_name: Seq<char>,
    pub value_written: u16,
    pub message: Seq<char>,
}

impl DeepView for WriteRegisterResponse {
    type V = WriteRegisterResponseView;

    open spec fn deep_view(&self) -> WriteRegisterResponseView {
        WriteRegisterResponseView {
            success: self.success,
            device_id: self.device_id@,
            register_name: self.register_name@,
            value_written: self.value_written,
            message: self.message@,
        }
    }
}

/// What the API answers for each way a write can end: 503 when the request
/// could not be queued, 504 on timeout, 500 when the reply was lost, 502 with
/// the reason when the write was refused, and the success body otherwise.
pub open spec fn write_answer(
    device_id: Seq<char>,
    register_name: Seq<char>,
    value: u16,
    outcome: WriteOutcomeView,
) -> Result<WriteRegisterResponseView, ApiErrorView> {
    match outcome {
        WriteOutcomeView::Unavailable => Err(
            ApiErrorView {
                error: "Write service unavailable"@,
                code: SERVICE_UNAVAILABLE,
                details: Some("The Modbus write handler is not running"@),
            },
        ),
        WriteOutcomeView::TimedOut => Err(
            ApiErrorView {
                error: "Write timeout"@,
                code: GATEWAY_TIMEOUT,
                details: Some("The Modbus device did not respond in time"@),
            },
        ),
        WriteOutcomeView::ReplyLost => Err(
            ApiErrorView {
                error: "Write failed"@,
                code: INTERNAL_SERVER_ERROR,
                details: Some("Response channel closed unexpectedly"@),
            },
        ),
        WriteOutcomeView::Refused(reason) => Err(
            ApiErrorView {
                error: "Modbus write failed"@,
                code: BAD_GATEWAY,
                details: Some(reason),
            },
        ),
        WriteOutcomeView::Written => Ok(
            WriteRegisterResponseView {
                success: true,
                device_id,
                register_name,
                value_written: value,
                message: "Register written successfully"@,
            },
        ),
    }
}

/// `POST /api/devices/{id}/registers/{name}`, second half: the answer for
/// the way the write ended.
pub fn write_register(device_id: &str, register_name: &str, value: u16, outcome: WriteOutcome) -> (response:
    Result<WriteRegisterResponse, ApiError>)
    ensures
        match response {
            Ok(body) => write_answer(device_id@, register_name@, value, outcome.deep_view())
                == Ok::<WriteRegisterResponseView, ApiErrorView>(body.deep_view()),
            Err(error) => write_answer(device_id@, register_name@, value, outcome.deep_view())
                == Err::<WriteRegisterResponseView, ApiErrorView>(error.deep_view()),
        },
{
    match outcome {
        WriteOutcome::Unavailable => Err(
            ApiError::with_details(
                SERVICE_UNAVAILABLE,
                "Write service unavailable",
                "The Modbus write handler is not running",
            ),
        ),
        WriteOutcome::TimedOut => Err(
            ApiError::with_details(
                GATEWAY_TIMEOUT,
                "Write timeout",
                "The Modbus device did not respond in time",
            ),
        ),
        WriteOutcome::ReplyLost => Err(
            ApiError::with_details(
                INTERNAL_SERVER_ERROR,
                "Write failed",
                "Response channel closed unexpectedly",
            ),
        ),
        WriteOutcome::Refused(reason) => Err(
            ApiError::with_details(BAD_GATEWAY, "Modbus write failed", reason.as_str()),
        ),
        WriteOutcome::Written => Ok(
            WriteRegisterResponse {
                success: true,
                device_id: device_id.to_string(),
                register_name: register_name.to_string(),
                value_written: value,
                message: "Register written successfully".to_string(),
            },
        ),
    }
}

} // verus!
