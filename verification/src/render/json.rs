//! The JSON form of a report, as a document of keys and values.
//!
//! The document is a top-level object with one entry per section that is
//! present: `cpu_info`, `gpu_info`, `battery_info`, `network_info`. A
//! section is an object of scalar fields, and the accelerator section a
//! list of such objects. The document is a value; a JSON writer turns it
//! into text, divides where a number is a quotient, and writes a decimal
//! by its digits.

use vstd::prelude::*;
use vstd::string::StringExecFns;
use crate::info::gpu::device_label;
use crate::info::gpu::DeviceKind;
use crate::info::network::NetworkInfo;
use crate::info::power::BatteryInfo;
use crate::decimal::Decimal;
use crate::decimal::Figure;
use crate::number::Quotient;
use crate::render::text::number_or_zero;
use crate::render::text::text_or_unavailable;
use crate::report::BenchmarkReport;
use crate::report::CpuResult;
use crate::report::GpuResult;
use crate::report::ReportView;

verus! {

/// A JSON value that holds no other value.
#[derive(Clone, Debug, PartialEq, Eq)]
pub enum JsonScalar {
    Null,
    Bool(bool),
    /// A whole number.
    Unsigned(u64),
    /// A number given as an exact quotient. Where the quotient is not
    /// finite the number cannot be written and stands for `null`.
    Number(Quotient),
    /// A number given by its decimal digits.
    Decimal(Decimal),
    Text(String),
}

/// One field of a JSON object.
#[derive(Clone, Debug, PartialEq, Eq)]
pub struct JsonField {
    pub key: String,
    pub value: JsonScalar,
}

/// A JSON object of scalar fields, in the order in which they were added.
#[derive(Clone, Debug, PartialEq, Eq)]
pub struct JsonObject {
    pub fields: Vec<JsonField>,
}

/// The value of a section: one object, or a list of objects.
#[derive(Clone, Debug, PartialEq, Eq)]
pub enum JsonSection {
    Object(JsonObject),
    List(Vec<JsonObject>),
}

/// One entry of the top-level object.
#[derive(Clone, Debug, PartialEq, Eq)]
pub struct JsonEntry {
    pub key: String,
    pub value: JsonSection,
}

/// The top-level object of a report.
#[derive(Clone, Debug, PartialEq, Eq)]
pub struct JsonDocument {
    pub entries: Vec<JsonEntry>,
}

/// What a scalar holds.
pub enum ScalarView {
    Null,
    Bool(bool),
    Unsigned(u64),
    Number(Quotient),
    Decimal(Decimal),
    Text(Seq<char>),
}

/// What an object holds: its keys with their values, in order.
pub type ObjectView = Seq<(Seq<char>, ScalarView)>;

/// What a section holds.
pub enum SectionView {
    Object(ObjectView),
    List(Seq<ObjectView>),
}

/// What a document holds: its keys with their sections, in order.
pub type DocumentView = Seq<(Seq<char>, SectionView)>;

impl View for JsonScalar {
    type V = ScalarView;

    open spec fn view(&self) -> ScalarView {
        match *self {
            JsonScalar::Null => ScalarView::Null,
            JsonScalar::Bool(b) => ScalarView::Bool(b),
            JsonScalar::Unsigned(n) => ScalarView::Unsigned(n),
            JsonScalar::Number(q) => ScalarView::Number(q),
            JsonScalar::Decimal(d) => ScalarView::Decimal(d),
            JsonScalar::Text(text) => ScalarView::Text(text@),
        }
    }
}

impl View for JsonField {
    type V = (Seq<char>, ScalarView);

    open spec fn view(&self) -> (Seq<char>, ScalarView) {
        (self.key@, self.value@)
    }
}

impl View for JsonObject {
    type V = ObjectView;

    open spec fn view(&self) -> ObjectView {
        self.fields@.map_values(|field: JsonField| field@)
    }
}

impl View for JsonSection {
    type V = SectionView;

    open spec fn view(&self) -> SectionView {
        match *self {
            JsonSection::Object(object) => SectionView::Object(object@),
            JsonSection::List(objects) => SectionView::List(
                objects@.map_values(|object: JsonObject| object@),
            ),
        }
    }
}

impl View for JsonEntry {
    type V = (Seq<char>, SectionView);

    open spec fn view(&self) -> (Seq<char>, SectionView) {
        (self.key@, self.value@)
    }
}

impl View for JsonDocument {
    type V = DocumentView;

    open spec fn view(&self) -> DocumentView {
        self.entries@.map_values(|entry: JsonEntry| entry@)
    }
}

/// An optional figure as a scalar: the number, or `null` where there is
/// no figure or the figure is no number.
pub open spec fn optional_number(quantity: Option<Figure>) -> ScalarView {
    match quantity {
        Some(Figure::Number(decimal)) => ScalarView::Decimal(decimal),
        _ => ScalarView::Null,
    }
}

/// An optional truth value as a scalar: the value, or `null`.
pub open spec fn optional_bool(flag: Option<bool>) -> ScalarView {
    match flag {
        Some(b) => ScalarView::Bool(b),
        None => ScalarView::Null,
    }
}

/// The fields of the processor section.
pub open spec fn cpu_fields(result: CpuResult) -> ObjectView {
    seq![
        ("os"@, ScalarView::Text(result.info.os@)),
        ("os_version"@, ScalarView::Text(text_or_unavailable(result.info.os_version))),
        ("total_memory_mb"@, ScalarView::Unsigned(result.info.total_memory)),
        ("used_memory_mb"@, ScalarView::Unsigned(result.info.used_memory)),
        ("total_swap_mb"@, ScalarView::Unsigned(result.info.total_swap)),
        ("used_swap_mb"@, ScalarView::Unsigned(result.info.used_swap)),
        ("arch"@, ScalarView::Text(text_or_unavailable(result.info.arch))),
        ("cpu_count"@, ScalarView::Unsigned(result.info.cpu_count as u64)),
        ("gflops"@, ScalarView::Number(result.measurement.throughput_value())),
        (
            "benchmark_duration_seconds"@,
            ScalarView::Number(result.measurement.elapsed_seconds_value()),
        ),
    ]
}

/// The fields of one accelerator: the integrated one shows what it is and
/// its figures, a discrete one also its index, name and memory.
pub open spec fn gpu_fields(result: GpuResult) -> ObjectView {
    match result.info.device {
        DeviceKind::IntegratedUnified => seq![
            ("device"@, ScalarView::Text(device_label(result.info.device))),
            ("tflops"@, ScalarView::Number(result.measurement.throughput_value())),
            ("duration"@, ScalarView::Number(result.measurement.elapsed_seconds_value())),
        ],
        DeviceKind::DiscreteIndexed(_) => seq![
            ("device_id"@, ScalarView::Unsigned(result.info.device_id as u64)),
            ("device"@, ScalarView::Text(device_label(result.info.device))),
            ("name"@, ScalarView::Text(text_or_unavailable(result.info.name))),
            ("total_memory"@, ScalarView::Unsigned(number_or_zero(result.info.total_memory) as u64)),
            ("free_memory"@, ScalarView::Unsigned(number_or_zero(result.info.free_memory) as u64)),
            ("used_memory"@, ScalarView::Unsigned(number_or_zero(result.info.used_memory) as u64)),
            ("tflops"@, ScalarView::Number(result.measurement.throughput_value())),
            ("duration"@, ScalarView::Number(result.measurement.elapsed_seconds_value())),
        ],
    }
}

/// The fields of the battery section.
pub open spec fn battery_fields(info: BatteryInfo) -> ObjectView {
    seq![
        ("has_battery"@, ScalarView::Bool(info.has_battery)),
        ("charge_percent"@, optional_number(info.charge_percent)),
        ("is_charging"@, optional_bool(info.is_charging)),
        ("wh_capacity"@, optional_number(info.wh_capacity)),
    ]
}

/// The fields of the network section.
pub open spec fn network_fields(info: NetworkInfo) -> ObjectView {
    seq![
        ("ping_ms"@, ScalarView::Unsigned(info.ping_ms as u64)),
        ("public_ip"@, ScalarView::Text(info.public_ip@)),
        ("download_mbps"@, ScalarView::Number(info.download_mbps)),
        ("upload_mbps"@, ScalarView::Number(info.upload_mbps)),
    ]
}

/// The document of a report: one entry per section that is present, in
/// the order processor, accelerator, battery, network. An accelerator
/// section without entries is an empty list, not a missing key.
pub open spec fn json_document(report: ReportView) -> DocumentView {
    Seq::<(Seq<char>, SectionView)>::empty() + (match report.cpu {
        Some(result) => seq![("cpu_info"@, SectionView::Object(cpu_fields(result)))],
        None => Seq::empty(),
    }) + (match report.gpu {
        Some(entries) => seq![
            (
                "gpu_info"@,
                SectionView::List(entries.map_values(|result: GpuResult| gpu_fields(result))),
            ),
        ],
        None => Seq::empty(),
    }) + (match report.battery {
        Some(info) => seq![("battery_info"@, SectionView::Object(battery_fields(info)))],
        None => Seq::empty(),
    }) + (match report.network {
        Some(info) => seq![("network_info"@, SectionView::Object(network_fields(info)))],
        None => Seq::empty(),
    })
}

impl JsonObject {
    /// An object without fields.
    pub fn new() -> (object: JsonObject)
        ensures
            object@ == Seq::<(Seq<char>, ScalarView)>::empty(),
    {
        let object = JsonObject { fields: Vec::new() };
        assert(object@ =~= Seq::<(Seq<char>, ScalarView)>::empty());
        object
    }

    /// Adds a field at the end.
    pub fn insert(&mut self, key: &str, value: JsonScalar)
        ensures
            final(self)@ == old(self)@.push((key@, value@)),
    {
        self.fields.push(JsonField { key: String::from_str(key), value });
        assert(self@ =~= old(self)@.push((key@, value@)));
    }
}

impl JsonDocument {
    /// A document without entries.
    pub fn new() -> (document: JsonDocument)
        ensures
            document@ == Seq::<(Seq<char>, SectionView)>::empty(),
    {
        let document = JsonDocument { entries: Vec::new() };
        assert(document@ =~= Seq::<(Seq<char>, SectionView)>::empty());
        document
    }

    /// Adds an entry at the end.
    pub fn insert(&mut self, key: &str, value: JsonSection)
        ensures
            final(self)@ == old(self)@.push((key@, value@)),
    {
        self.entries.push(JsonEntry { key: String::from_str(key), value });
        assert(self@ =~= old(self)@.push((key@, value@)));
    }
}

/// An optional figure as a scalar.
fn number_or_null(quantity: Option<Figure>) -> (scalar: JsonScalar)
    ensures
        scalar@ == optional_number(quantity),
{
    match quantity {
        Some(Figure::Number(decimal)) => JsonScalar::Decimal(decimal),
        _ => JsonScalar::Null,
    }
}

/// An optional truth value as a scalar.
fn bool_or_null(flag: Option<bool>) -> (scalar: JsonScalar)
    ensures
        scalar@ == optional_bool(flag),
{
    match flag {
        Some(b) => JsonScalar::Bool(b),
        None => JsonScalar::Null,
    }
}

/// An optional string as a text scalar: the string, or `Not available`.
fn text_or_placeholder(text: &Option<String>) -> (scalar: JsonScalar)
    ensures
        scalar@ == ScalarView::Text(text_or_unavailable(*text)),
{
    match text {
        Some(present) => JsonScalar::Text(present.clone()),
        None => JsonScalar::Text(String::from_str("Not available")),
    }
}

/// An optional number as a scalar: the number, or zero.
fn number_or_nothing(number: Option<u64>) -> (scalar: JsonScalar)
    ensures
        scalar@ == ScalarView::Unsigned(number_or_zero(number) as u64),
{
    match number {
        Some(value) => JsonScalar::Unsigned(value),
        None => JsonScalar::Unsigned(0),
    }
}

/// The processor section of the document.
pub fn cpu_json(result: &CpuResult) -> (object: JsonObject)
    ensures
        object@ == cpu_fields(*result),
{
    let mut object = JsonObject::new();
    object.insert("os", JsonScalar::Text(result.info.os.clone()));
    object.insert("os_version", text_or_placeholder(&result.info.os_version));
    object.insert("total_memory_mb", JsonScalar::Unsigned(result.info.total_memory));
    object.insert("used_memory_mb", JsonScalar::Unsigned(result.info.used_memory));
    object.insert("total_swap_mb", JsonScalar::Unsigned(result.info.total_swap));
    object.insert("used_swap_mb", JsonScalar::Unsigned(result.info.used_swap));
    object.insert("arch", text_or_placeholder(&result.info.arch));
    object.insert("cpu_count", JsonScalar::Unsigned(result.info.cpu_count as u64));
    object.insert("gflops", JsonScalar::Number(result.measurement.throughput()));
    object.insert(
        "benchmark_duration_seconds",
        JsonScalar::Number(result.measurement.elapsed_seconds()),
    );
    assert(object@ =~= cpu_fields(*result));
    object
}

/// One accelerator of the document.
pub fn gpu_json(result: &GpuResult) -> (object: JsonObject)
    ensures
        object@ == gpu_fields(*result),
{
    let mut object = JsonObject::new();
    match result.info.device {
        DeviceKind::IntegratedUnified => {
            object.insert("device", JsonScalar::Text(result.info.device.label()));
        },
        DeviceKind::DiscreteIndexed(_) => {
            object.insert("device_id", JsonScalar::Unsigned(result.info.device_id as u64));
            object.insert("device", JsonScalar::Text(result.info.device.label()));
            object.insert("name", text_or_placeholder(&result.info.name));
            object.insert("total_memory", number_or_nothing(result.info.total_memory));
            object.insert("free_memory", number_or_nothing(result.info.free_memory));
            object.insert("used_memory", number_or_nothing(result.info.used_memory));
        },
    }
    object.insert("tflops", JsonScalar::Number(result.measurement.throughput()));
    object.insert("duration", JsonScalar::Number(result.measurement.elapsed_seconds()));
    assert(object@ =~= gpu_fields(*result));
    object
}

/// The accelerators of the document, one object per entry.
pub fn gpu_list_json(entries: &Vec<GpuResult>) -> (objects: Vec<JsonObject>)
    ensures
        objects@.map_values(|object: JsonObject| object@) == entries@.map_values(
            |result: GpuResult| gpu_fields(result),
        ),
{
    let mut objects: Vec<JsonObject> = Vec::new();
    let mut index: usize = 0;
    while index < entries.len()
        invariant
            index <= entries.len(),
            objects@.len() == index,
            forall|i: int| 0 <= i < index ==> (#[trigger] objects@[i])@ == gpu_fields(entries@[i]),
        decreases entries.len() - index,
    {
        objects.push(gpu_json(&entries[index]));
        index = index + 1;
    }
    assert(objects@.map_values(|object: JsonObject| object@) =~= entries@.map_values(
        |result: GpuResult| gpu_fields(result),
    ));
    objects
}

/// The battery section of the document.
pub fn battery_json(info: &BatteryInfo) -> (object: JsonObject)
    ensures
        object@ == battery_fields(*info),
{
    let mut object = JsonObject::new();
    object.insert("has_battery", JsonScalar::Bool(info.has_battery));
    object.insert("charge_percent", number_or_null(info.charge_percent));
    object.insert("is_charging", bool_or_null(info.is_charging));
    object.insert("wh_capacity", number_or_null(info.wh_capacity));
    assert(object@ =~= battery_fields(*info));
    object
}

/// The network section of the document.
pub fn network_json(info: &NetworkInfo) -> (object: JsonObject)
    ensures
        object@ == network_fields(*info),
{
    let mut object = JsonObject::new();
    object.insert("ping_ms", JsonScalar::Unsigned(info.ping_ms as u64));
    object.insert("public_ip", JsonScalar::Text(info.public_ip.clone()));
    object.insert("download_mbps", JsonScalar::Number(info.download_mbps));
    object.insert("upload_mbps", JsonScalar::Number(info.upload_mbps));
    assert(object@ =~= network_fields(*info));
    object
}

/// The JSON document of a report.
pub fn generate_json_output(report: &BenchmarkReport) -> (document: JsonDocument)
    ensures
        document@ == json_document(report@),
{
    let mut document = JsonDocument::new();
    let ghost start = document@;
    match &report.cpu {
        Some(result) => {
            document.insert("cpu_info", JsonSection::Object(cpu_json(result)));
            assert(document@ =~= start + seq![
                ("cpu_info"@, SectionView::Object(cpu_fields(*result))),
            ]);
        },
        None => {
            assert(document@ =~= start + Seq::<(Seq<char>, SectionView)>::empty());
        },
    }
    let ghost after_cpu = document@;
    match &report.gpu {
        Some(entries) => {
            document.insert("gpu_info", JsonSection::List(gpu_list_json(entries)));
            assert(document@ =~= after_cpu + seq![
                (
                    "gpu_info"@,
                    SectionView::List(entries@.map_values(|result: GpuResult| gpu_fields(result))),
                ),
            ]);
        },
        None => {
            assert(document@ =~= after_cpu + Seq::<(Seq<char>, SectionView)>::empty());
        },
    }
    let ghost after_gpu = document@;
    match &report.battery {
        Some(info) => {
            document.insert("battery_info", JsonSection::Object(battery_json(info)));
            assert(document@ =~= after_gpu + seq![
                ("battery_info"@, SectionView::Object(battery_fields(*info))),
            ]);
        },
        None => {
            assert(document@ =~= after_gpu + Seq::<(Seq<char>, SectionView)>::empty());
        },
    }
    let ghost after_battery = document@;
    match &report.network {
        Some(info) => {
            document.insert("network_info", JsonSection::Object(network_json(info)));
            assert(document@ =~= after_battery + seq![
                ("network_info"@, SectionView::Object(network_fields(*info))),
            ]);
        },
        None => {
            assert(document@ =~= after_battery + Seq::<(Seq<char>, SectionView)>::empty());
        },
    }
    document
}

/// How many sections a report holds.
pub open spec fn section_count(report: ReportView) -> nat {
    let cpu: nat = if report.cpu is Some { 1 } else { 0 };
    let gpu: nat = if report.gpu is Some { 1 } else { 0 };
    let battery: nat = if report.battery is Some { 1 } else { 0 };
    let network: nat = if report.network is Some { 1 } else { 0 };
    cpu + gpu + battery + network
}

/// The document has one entry for each section of the report and no
/// other. A report with the processor section alone gives a document whose
/// one key is `cpu_info`, with the throughput and the duration as numbers.
pub proof fn lemma_document_sections(report: ReportView)
    ensures
        json_document(report).len() == section_count(report),
        report.cpu matches Some(result) ==> json_document(report)[0] == (
            "cpu_info"@,
            SectionView::Object(cpu_fields(result)),
        ) && cpu_fields(result)[8] == ("gflops"@, ScalarView::Number(
            result.measurement.throughput_value(),
        )) && cpu_fields(result)[9] == (
            "benchmark_duration_seconds"@,
            ScalarView::Number(result.measurement.elapsed_seconds_value()),
        ),
{
}

/// An accelerator section without entries is in the document as an empty
/// list under its key, right after the processor section where there is
/// one.
pub proof fn lemma_empty_accelerator_section(report: ReportView)
    requires
        report.gpu == Some(Seq::<GpuResult>::empty()),
    ensures
        json_document(report)[if report.cpu is Some { 1int } else { 0int }] == (
            "gpu_info"@,
            SectionView::List(Seq::<ObjectView>::empty()),
        ),
{
    assert(Seq::<GpuResult>::empty().map_values(|result: GpuResult| gpu_fields(result))
        =~= Seq::<ObjectView>::empty());
}

/// The document depends on what a report holds and on nothing else: two
/// reports that hold the same give the same document, so making it twice
/// of one report gives it twice the same.
pub proof fn lemma_document_is_determined(first: BenchmarkReport, second: BenchmarkReport)
    requires
        first@ == second@,
    ensures
        json_document(first@) == json_document(second@),
{
}

} // verus!
