//! Metrics of the bridge as plain samples.
//!
//! Each function here says which metric an observation feeds, under which
//! labels and with which value. Handing the samples to a Prometheus recorder
//! is left to the caller:
//! - Register read counts
//! - Error counts
//! - Poll latency histograms
//! - Device connection status
//! - MQTT publish counts

use vstd::prelude::*;

verus! {

broadcast use vstd::string::group_string_axioms;

/// The kind of metric a sample feeds.
#[derive(Debug, Clone, Copy, PartialEq, Eq, Structural)]
pub enum MetricKind {
    Counter,
    Gauge,
    Histogram,
}

/// What a sample carries. The recorder takes floating-point numbers; each
/// variant says how its payload becomes one.
#[derive(Debug, Clone, Copy, PartialEq, Eq, Structural)]
pub enum MetricValue {
    /// Increment of a counter.
    Increment(u64),
    /// One for `true`, zero for `false`.
    Flag(bool),
    /// A number of things.
    Quantity(usize),
    /// An IEEE-754 binary64 bit pattern.
    Bits(u64),
    /// A duration in nanoseconds, recorded in seconds.
    Nanos(u64),
    /// A duration in milliseconds, recorded in seconds.
    Millis(u64),
}

/// One label of a sample.
#[derive(Debug)]
pub struct Label {
    pub key: String,
    pub value: String,
}

pub struct LabelView {
    pub key: Seq<char>,
    pub value: Seq<char>,
}

impl DeepView for Label {
    type V = LabelView;

    open spec fn deep_view(&self) -> LabelView {
        LabelView { key: self.key@, value: self.value@ }
    }
}

/// One observation for the recorder.
#[derive(Debug)]
pub struct Sample {
    pub kind: MetricKind,
    pub name: String,
    pub labels: Vec<Label>,
    pub value: MetricValue,
}

pub struct SampleView {
    pub kind: MetricKind,
    pub name: Seq<char>,
    pub labels: Seq<LabelView>,
    pub value: MetricValue,
}

impl DeepView for Sample {
    type V = SampleView;

    open spec fn deep_view(&self) -> SampleView {
        SampleView {
            kind: self.kind,
            name: self.name@,
            labels: self.labels.deep_view(),
            value: self.value,
        }
    }
}

/// The label `key = value`.
pub open spec fn label(key: Seq<char>, value: Seq<char>) -> LabelView {
    LabelView { key, value }
}

/// The labels `device` and `register`.
pub open spec fn register_labels(device_id: Seq<char>, register_name: Seq<char>) -> Seq<LabelView> {
    seq![label("device"@, device_id), label("register"@, register_name)]
}

/// The status label value of an outcome.
pub open spec fn status_text(success: bool) -> Seq<char> {
    if success {
        "success"@
    } else {
        "error"@
    }
}

/// Counter of register reads, by device, register and status.
pub open spec fn reads_total(device_id: Seq<char>, register_name: Seq<char>, success: bool) -> SampleView {
    SampleView {
        kind: MetricKind::Counter,
        name: "rustbridge_register_reads_total"@,
        labels: register_labels(device_id, register_name).push(
            label("status"@, status_text(success)),
        ),
        value: MetricValue::Increment(1),
    }
}

/// Histogram of read durations, by device and register.
pub open spec fn read_duration(device_id: Seq<char>, register_name: Seq<char>, nanos: u64) -> SampleView {
    SampleView {
        kind: MetricKind::Histogram,
        name: "rustbridge_read_duration_seconds"@,
        labels: register_labels(device_id, register_name),
        value: MetricValue::Nanos(nanos),
    }
}

/// Gauge of the current register value, by device and register.
pub open spec fn register_value(device_id: Seq<char>, register_name: Seq<char>, bits: u64) -> SampleView {
    SampleView {
        kind: MetricKind::Gauge,
        name: "rustbridge_register_value"@,
        labels: register_labels(device_id, register_name),
        value: MetricValue::Bits(bits),
    }
}

/// Counter of errors, by device and error type.
pub open spec fn errors_total(device_id: Seq<char>, error_type: Seq<char>) -> SampleView {
    SampleView {
        kind: MetricKind::Counter,
        name: "rustbridge_errors_total"@,
        labels: seq![label("device"@, device_id), label("type"@, error_type)],
        value: MetricValue::Increment(1),
    }
}

/// Gauge of a device's connection status.
pub open spec fn device_connected(device_id: Seq<char>, connected: bool) -> SampleView {
    SampleView {
        kind: MetricKind::Gauge,
        name: "rustbridge_device_connected"@,
        labels: seq![label("device"@, device_id)],
        value: MetricValue::Flag(connected),
    }
}

/// Counter of MQTT publishes, by device, register and status.
pub open spec fn mqtt_publishes_total(
    device_id: Seq<char>,
    register_name: Seq<char>,
    success: bool,
) -> SampleView {
    SampleView {
        kind: MetricKind::Counter,
        name: "rustbridge_mqtt_publishes_total"@,
        labels: register_labels(device_id, register_name).push(
            label("status"@, status_text(success)),
        ),
        value: MetricValue::Increment(1),
    }
}

/// Gauge of the MQTT connection status.
pub open spec fn mqtt_connected(connected: bool) -> SampleView {
    SampleView {
        kind: MetricKind::Gauge,
        name: "rustbridge_mqtt_connected"@,
        labels: Seq::empty(),
        value: MetricValue::Flag(connected),
    }
}

/// Gauge of the number of devices being polled.
pub open spec fn active_devices(count: usize) -> SampleView {
    SampleView {
        kind: MetricKind::Gauge,
        name: "rustbridge_active_devices"@,
        labels: Seq::empty(),
        value: MetricValue::Quantity(count),
    }
}

/// Histogram of poll cycle durations, by device.
pub open spec fn poll_cycle(device_id: Seq<char>, duration_ms: u64) -> SampleView {
    SampleView {
        kind: MetricKind::Histogram,
        name: "rustbridge_poll_cycle_seconds"@,
        labels: seq![label("device"@, device_id)],
        value: MetricValue::Millis(duration_ms),
    }
}

/// Gauge of the number of open WebSocket connections.
pub open spec fn websocket_connections(count: usize) -> SampleView {
    SampleView {
        kind: MetricKind::Gauge,
        name: "rustbridge_websocket_connections"@,
        labels: Seq::empty(),
        value: MetricValue::Quantity(count),
    }
}

/// Time from `start` to `now` on a monotonic clock; zero if `now` is earlier.
pub open spec fn elapsed(start: u64, now: u64) -> u64 {
    if now >= start {
        (now - start) as u64
    } else {
        0
    }
}

fn make_label(key: &str, value: &str) -> (made: Label)
    ensures
        made.deep_view() == label(key@, value@),
{
    Label { key: key.to_string(), value: value.to_string() }
}

fn make_register_labels(device_id: &str, register_name: &str) -> (labels: Vec<Label>)
    ensures
        labels.deep_view() == register_labels(device_id@, register_name@),
{
    let mut labels: Vec<Label> = Vec::new();
    labels.push(make_label("device", device_id));
    labels.push(make_label("register", register_name));
    assert(labels.deep_view() =~= register_labels(device_id@, register_name@));
    labels
}

fn make_status_labels(device_id: &str, register_name: &str, success: bool) -> (labels: Vec<Label>)
    ensures
        labels.deep_view() == register_labels(device_id@, register_name@).push(
            label("status"@, status_text(success)),
        ),
{
    let mut labels = make_register_labels(device_id, register_name);
    let ghost before = labels.deep_view();
    labels.push(
        make_label(
            "status",
            if success {
                "success"
            } else {
                "error"
            },
        ),
    );
    assert(labels.deep_view() =~= before.push(label("status"@, status_text(success))));
    labels
}

fn make_device_label(device_id: &str) -> (labels: Vec<Label>)
    ensures
        labels.deep_view() == seq![label("device"@, device_id@)],
{
    let mut labels: Vec<Label> = Vec::new();
    labels.push(make_label("device", device_id));
    assert(labels.deep_view() =~= seq![label("device"@, device_id@)]);
    labels
}

fn no_labels() -> (labels: Vec<Label>)
    ensures
        labels.deep_view() == Seq::<LabelView>::empty(),
{
    let labels: Vec<Label> = Vec::new();
    assert(labels.deep_view() =~= Seq::<LabelView>::empty());
    labels
}

/// Metrics for register read operations
#[derive(Debug)]
pub struct ReadMetrics {
    pub start: u64,
    pub device_id: String,
    pub register_name: String,
}

impl ReadMetrics {
    /// Start timing a register read. `now` is a monotonic clock reading in
    /// nanoseconds.
    pub fn start(device_id: &str, register_name: &str, now: u64) -> (timer: Self)
        ensures
            timer.start == now,
            timer.device_id@ == device_id@,
            timer.register_name@ == register_name@,
    {
        Self { start: now, device_id: device_id.to_string(), register_name: register_name.to_string() }
    }

    /// Record successful read: the read counter, the latency histogram and
    /// the value gauge, in this order.
    pub fn success(self, value: u64, now: u64) -> (samples: Vec<Sample>)
        ensures
            samples.deep_view() == seq![
                reads_total(self.device_id@, self.register_name@, true),
                read_duration(self.device_id@, self.register_name@, elapsed(self.start, now)),
                register_value(self.device_id@, self.register_name@, value),
            ],
    {
        let device = self.device_id.as_str();
        let register = self.register_name.as_str();
        let duration = if now >= self.start {
            now - self.start
        } else {
            0
        };
        let mut samples: Vec<Sample> = Vec::new();
        samples.push(
            Sample {
                kind: MetricKind::Counter,
                name: "rustbridge_register_reads_total".to_string(),
                labels: make_status_labels(device, register, true),
                value: MetricValue::Increment(1),
            },
        );
        samples.push(
            Sample {
                kind: MetricKind::Histogram,
                name: "rustbridge_read_duration_seconds".to_string(),
                labels: make_register_labels(device, register),
                value: MetricValue::Nanos(duration),
            },
        );
        samples.push(
            Sample {
                kind: MetricKind::Gauge,
                name: "rustbridge_register_value".to_string(),
                labels: make_register_labels(device, register),
                value: MetricValue::Bits(value),
            },
        );
        assert(samples.deep_view() =~= seq![
            reads_total(self.device_id@, self.register_name@, true),
            read_duration(self.device_id@, self.register_name@, elapsed(self.start, now)),
            register_value(self.device_id@, self.register_name@, value),
        ]);
        samples
    }

    /// Record failed read: the read counter, the error counter and the
    /// latency histogram, in this order.
    pub fn failure(self, error_type: &str, now: u64) -> (samples: Vec<Sample>)
        ensures
            samples.deep_view() == seq![
                reads_total(self.device_id@, self.register_name@, false),
                errors_total(self.device_id@, error_type@),
                read_duration(self.device_id@, self.register_name@, elapsed(self.start, now)),
            ],
    {
        let device = self.device_id.as_str();
        let register = self.register_name.as_str();
        let duration = if now >= self.start {
            now - self.start
        } else {
            0
        };
        let mut error_labels: Vec<Label> = Vec::new();
        error_labels.push(make_label("device", device));
        error_labels.push(make_label("type", error_type));
        assert(error_labels.deep_view() =~= seq![
            label("device"@, device@),
            label("type"@, error_type@),
        ]);
        let mut samples: Vec<Sample> = Vec::new();
        samples.push(
            Sample {
                kind: MetricKind::Counter,
                name: "rustbridge_register_reads_total".to_string(),
                labels: make_status_labels(device, register, false),
                value: MetricValue::Increment(1),
            },
        );
        samples.push(
            Sample {
                kind: MetricKind::Counter,
                name: "rustbridge_errors_total".to_string(),
                labels: error_labels,
                value: MetricValue::Increment(1),
            },
        );
        samples.push(
            Sample {
                kind: MetricKind::Histogram,
                name: "rustbridge_read_duration_seconds".to_string(),
                labels: make_register_labels(device, register),
                value: MetricValue::Nanos(duration),
            },
        );
        assert(samples.deep_view() =~= seq![
            reads_total(self.device_id@, self.register_name@, false),
            errors_total(self.device_id@, error_type@),
            read_duration(self.device_id@, self.register_name@, elapsed(self.start, now)),
        ]);
        samples
    }
}

/// Record device connection status
pub fn record_device_status(device_id: &str, connected: bool) -> (sample: Sample)
    ensures
        sample.deep_view() == device_connected(device_id@, connected),
{
    Sample {
        kind: MetricKind::Gauge,
        name: "rustbridge_device_connected".to_string(),
        labels: make_device_label(device_id),
        value: MetricValue::Flag(connected),
    }
}

/// Record MQTT publish event
pub fn record_mqtt_publish(device_id: &str, register_name: &str, success: bool) -> (sample: Sample)
    ensures
        sample.deep_view() == mqtt_publishes_total(device_id@, register_name@, success),
{
    Sample {
        kind: MetricKind::Counter,
        name: "rustbridge_mqtt_publishes_total".to_string(),
        labels: make_status_labels(device_id, register_name, success),
        value: MetricValue::Increment(1),
    }
}

/// Record MQTT connection status
pub fn record_mqtt_connection(connected: bool) -> (sample: Sample)
    ensures
        sample.deep_view() == mqtt_connected(connected),
{
    Sample {
        kind: MetricKind::Gauge,
        name: "rustbridge_mqtt_connected".to_string(),
        labels: no_labels(),
        value: MetricValue::Flag(connected),
    }
}

/// Record active polling devices count
pub fn record_active_devices(count: usize) -> (sample: Sample)
    ensures
        sample.deep_view() == active_devices(count),
{
    Sample {
        kind: MetricKind::Gauge,
        name: "rustbridge_active_devices".to_string(),
        labels: no_labels(),
        value: MetricValue::Quantity(count),
    }
}

/// Record poll cycle timing
pub fn record_poll_cycle(device_id: &str, duration_ms: u64) -> (sample: Sample)
    ensures
        sample.deep_view() == poll_cycle(device_id@, duration_ms),
{
    Sample {
        kind: MetricKind::Histogram,
        name: "rustbridge_poll_cycle_seconds".to_string(),
        labels: make_device_label(device_id),
        value: MetricValue::Millis(duration_ms),
    }
}

/// Record WebSocket connections
pub fn record_websocket_connections(count: usize) -> (sample: Sample)
    ensures
        sample.deep_view() == websocket_connections(count),
{
    Sample {
        kind: MetricKind::Gauge,
        name: "rustbridge_websocket_connections".to_string(),
        labels: no_labels(),
        value: MetricValue::Quantity(count),
    }
}

} // verus!
