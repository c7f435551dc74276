//! The plain-text form of a report: one section per part, each a heading
//! and a fixed set of `Label: value` lines, and a blank line after each
//! section.

use vstd::prelude::*;
use vstd::string::StringExecFns;
use crate::benchmark::ComputeMeasurement;
use crate::info::gpu::device_label;
use crate::info::gpu::DeviceKind;
use crate::info::network::NetworkInfo;
use crate::info::power::BatteryInfo;
use crate::number::decimal_text;
use crate::number::push_decimal;
use crate::number::push_quotient;
use crate::number::quotient_text;
use crate::decimal::Figure;
use crate::number::Quotient;
use crate::report::BenchmarkReport;
use crate::report::CpuResult;
use crate::report::GpuResult;
use crate::report::ReportView;

verus! {

/// A truth value as `true` or `false`.
pub open spec fn bool_text(b: bool) -> Seq<char> {
    if b {
        "true"@
    } else {
        "false"@
    }
}

/// The debug form of a string as the standard library writes it: the
/// string in double quotes, with what cannot be shown as it is written as
/// an escape.
pub uninterp spec fn debug_quoted(text: Seq<char>) -> Seq<char>;

/// The debug form of a string: what `format!` makes of it under `{:?}`,
/// which is the `Debug` implementation of `str` in the standard library.
/// The contract gives the result its name and claims nothing else of it.
#[verifier::external_body]
fn quote_debug(text: &str) -> (quoted: String)
    ensures
        quoted@ == debug_quoted(text@),
{
    format!("{:?}", text)
}

/// One line of a section: a label, a colon, a value.
pub open spec fn line(label: Seq<char>, value: Seq<char>) -> Seq<char> {
    label + ": "@ + value + "\n"@
}

/// The text of an optional string: the string, or `Not available`.
pub open spec fn text_or_unavailable(text: Option<String>) -> Seq<char> {
    match text {
        Some(present) => present@,
        None => "Not available"@,
    }
}

/// A number, or zero where it is not set.
pub open spec fn number_or_zero(number: Option<u64>) -> nat {
    match number {
        Some(value) => value as nat,
        None => 0,
    }
}

/// A figure as it is written, followed by a unit, or `None` where there
/// is no figure.
pub open spec fn quantity_text(quantity: Option<Figure>, unit: Seq<char>) -> Seq<char> {
    match quantity {
        Some(figure) => figure.text() + unit,
        None => "None"@,
    }
}

/// The processor section, with the quoted forms of the operating system
/// and of the architecture given.
pub open spec fn cpu_section_text(
    result: CpuResult,
    quoted_os: Seq<char>,
    quoted_arch: Seq<char>,
) -> Seq<char> {
    "=> CPU:\n"@ + line("OS          "@, quoted_os) + line(
        "OS version  "@,
        text_or_unavailable(result.info.os_version),
    ) + line("Memory Total"@, decimal_text(result.info.total_memory as nat) + " mb"@) + line(
        "Memory Used"@,
        decimal_text(result.info.used_memory as nat) + " mb"@,
    ) + line("Swap Total "@, decimal_text(result.info.total_swap as nat) + " mb"@) + line(
        "Swap Used  "@,
        decimal_text(result.info.used_swap as nat) + " mb"@,
    ) + line("CPU architecture"@, quoted_arch) + line(
        "CPU count   "@,
        decimal_text(result.info.cpu_count as nat),
    ) + line(
        "CPU FLOPS   "@,
        quotient_text(result.measurement.throughput_value()) + " GFLOPS"@,
    ) + line(
        "CPU benchmark duration"@,
        quotient_text(result.measurement.elapsed_seconds_value()) + " seconds"@,
    ) + "\n"@
}

/// The processor section of a report: operating system and architecture
/// stand in it in their debug form.
pub open spec fn cpu_text(result: CpuResult) -> Seq<char> {
    cpu_section_text(
        result,
        debug_quoted(result.info.os@),
        debug_quoted(text_or_unavailable(result.info.arch)),
    )
}

/// The lines of the integrated accelerator.
pub open spec fn integrated_entry_text(measurement: ComputeMeasurement) -> Seq<char> {
    line("GPU"@, "integrated (MPS)"@) + line(
        "GPU FLOPS"@,
        quotient_text(measurement.throughput_value()) + " TFLOPS"@,
    ) + line(
        "GPU benchmark duration"@,
        quotient_text(measurement.elapsed_seconds_value()) + " seconds"@,
    )
}

/// The lines of one discrete accelerator: a heading with the number of
/// the device, then what is known of it and its figures.
pub open spec fn discrete_entry_text(result: GpuResult) -> Seq<char> {
    "CUDA Device "@ + decimal_text(result.info.device_id as nat) + " Information:\n"@ + line(
        "Device"@,
        device_label(result.info.device),
    ) + line("Name"@, text_or_unavailable(result.info.name)) + line(
        "Total Memory"@,
        decimal_text(number_or_zero(result.info.total_memory)),
    ) + line("Free Memory"@, decimal_text(number_or_zero(result.info.free_memory))) + line(
        "Used Memory"@,
        decimal_text(number_or_zero(result.info.used_memory)),
    ) + line(
        "GPU Estimated FLOPS"@,
        quotient_text(result.measurement.throughput_value()) + " TFLOPS"@,
    ) + line(
        "GPU benchmark duration"@,
        quotient_text(result.measurement.elapsed_seconds_value()) + " seconds"@,
    )
}

/// The lines of one accelerator, by the kind of its device.
pub open spec fn gpu_entry_text(result: GpuResult) -> Seq<char> {
    match result.info.device {
        DeviceKind::IntegratedUnified => integrated_entry_text(result.measurement),
        DeviceKind::DiscreteIndexed(_) => discrete_entry_text(result),
    }
}

/// The lines of a list of accelerators, one after the other.
pub open spec fn gpu_entries_text(entries: Seq<GpuResult>) -> Seq<char>
    decreases entries.len(),
{
    if entries.len() == 0 {
        Seq::empty()
    } else {
        gpu_entries_text(entries.drop_last()) + gpu_entry_text(entries.last())
    }
}

/// The accelerator section. An empty list is said in words.
pub open spec fn gpu_section_text(entries: Seq<GpuResult>) -> Seq<char> {
    "=> GPU:\n"@ + (if entries.len() == 0 {
        "No accelerator found\n"@
    } else {
        gpu_entries_text(entries)
    }) + "\n"@
}

/// The battery section. A battery of which it is not known whether it
/// charges is shown as not charging.
pub open spec fn battery_section_text(info: BatteryInfo) -> Seq<char> {
    "=> Power:\n"@ + line("Battery         "@, bool_text(info.has_battery)) + line(
        "State of charge "@,
        quantity_text(info.charge_percent, "%"@),
    ) + line("Charging        "@, bool_text(info.is_charging == Some(true))) + line(
        "Capacity        "@,
        quantity_text(info.wh_capacity, " Wh"@),
    ) + "\n"@
}

/// The network section.
pub open spec fn network_section_text(info: NetworkInfo) -> Seq<char> {
    "=> Network:\n"@ + line("Ping        "@, decimal_text(info.ping_ms as nat) + " ms"@) + line(
        "Public IP   "@,
        info.public_ip@,
    ) + line("Download    "@, quotient_text(info.download_mbps) + " Mbps"@) + line(
        "Upload      "@,
        quotient_text(info.upload_mbps) + " Mbps"@,
    ) + "\n"@
}

/// The plain text of a report: the sections that are present, in the order
/// processor, accelerator, battery, network.
pub open spec fn plain_text(report: ReportView) -> Seq<char> {
    Seq::<char>::empty() + (match report.cpu {
        Some(result) => cpu_text(result),
        None => Seq::empty(),
    }) + (match report.gpu {
        Some(entries) => gpu_section_text(entries),
        None => Seq::empty(),
    }) + (match report.battery {
        Some(info) => battery_section_text(info),
        None => Seq::empty(),
    }) + (match report.network {
        Some(info) => network_section_text(info),
        None => Seq::empty(),
    })
}

/// Appends one line of a section.
fn push_line(out: &mut String, label: &str, value: &str)
    ensures
        final(out)@ == old(out)@ + line(label@, value@),
{
    out.append(label);
    out.append(": ");
    out.append(value);
    out.append("\n");
    assert(out@ =~= old(out)@ + line(label@, value@));
}

/// `true` or `false`.
fn truth(b: bool) -> (text: &'static str)
    ensures
        text@ == bool_text(b),
{
    if b {
        "true"
    } else {
        "false"
    }
}

/// A number in decimal.
fn number(n: u128) -> (text: String)
    ensures
        text@ == decimal_text(n as nat),
{
    let mut text = String::new();
    push_decimal(&mut text, n);
    assert(text@ =~= decimal_text(n as nat));
    text
}

/// A number in decimal, followed by a unit.
fn count(n: u128, unit: &str) -> (text: String)
    ensures
        text@ == decimal_text(n as nat) + unit@,
{
    let mut text = String::new();
    push_decimal(&mut text, n);
    text.append(unit);
    assert(text@ =~= decimal_text(n as nat) + unit@);
    text
}

/// A quotient with two decimal places, followed by a unit.
fn quantity(q: Quotient, unit: &str) -> (text: String)
    ensures
        text@ == quotient_text(q) + unit@,
{
    let mut text = String::new();
    push_quotient(&mut text, q);
    text.append(unit);
    assert(text@ =~= quotient_text(q) + unit@);
    text
}

/// A figure and its unit, or `None` where there is no figure.
fn quantity_or_none(quantity: Option<Figure>, unit: &str) -> (text: String)
    ensures
        text@ == quantity_text(quantity, unit@),
{
    match quantity {
        Some(figure) => {
            let mut text = figure.to_text();
            text.append(unit);
            text
        },
        None => String::from_str("None"),
    }
}

/// The text of an optional string: the string, or `Not available`.
fn text_or(text: &Option<String>) -> (shown: &str)
    ensures
        shown@ == text_or_unavailable(*text),
{
    match text {
        Some(present) => present.as_str(),
        None => "Not available",
    }
}

/// A number, or zero where it is not set.
fn number_or(number: Option<u64>) -> (shown: u128)
    ensures
        shown == number_or_zero(number),
{
    match number {
        Some(value) => value as u128,
        None => 0,
    }
}

/// The processor section of the plain text, with the quoted forms of the
/// operating system and of the architecture given.
pub fn cpu_section(result: &CpuResult, quoted_os: &str, quoted_arch: &str) -> (text: String)
    ensures
        text@ == cpu_section_text(*result, quoted_os@, quoted_arch@),
{
    let info = &result.info;
    let mut out = String::from_str("=> CPU:\n");
    push_line(&mut out, "OS          ", quoted_os);
    push_line(&mut out, "OS version  ", text_or(&info.os_version));
    push_line(&mut out, "Memory Total", count(info.total_memory as u128, " mb").as_str());
    push_line(&mut out, "Memory Used", count(info.used_memory as u128, " mb").as_str());
    push_line(&mut out, "Swap Total ", count(info.total_swap as u128, " mb").as_str());
    push_line(&mut out, "Swap Used  ", count(info.used_swap as u128, " mb").as_str());
    push_line(&mut out, "CPU architecture", quoted_arch);
    push_line(&mut out, "CPU count   ", number(info.cpu_count as u128).as_str());
    push_line(
        &mut out,
        "CPU FLOPS   ",
        quantity(result.measurement.throughput(), " GFLOPS").as_str(),
    );
    push_line(
        &mut out,
        "CPU benchmark duration",
        quantity(result.measurement.elapsed_seconds(), " seconds").as_str(),
    );
    out.append("\n");
    out
}

/// The processor section of the plain text.
pub fn format_cpu_info(result: &CpuResult) -> (text: String)
    ensures
        text@ == cpu_text(*result),
{
    let quoted_os = quote_debug(result.info.os.as_str());
    let quoted_arch = quote_debug(text_or(&result.info.arch));
    cpu_section(result, quoted_os.as_str(), quoted_arch.as_str())
}

/// The lines of the integrated accelerator.
pub fn format_mps_gpu_info(measurement: &ComputeMeasurement) -> (text: String)
    ensures
        text@ == integrated_entry_text(*measurement),
{
    let mut out = String::new();
    push_line(&mut out, "GPU", "integrated (MPS)");
    push_line(&mut out, "GPU FLOPS", quantity(measurement.throughput(), " TFLOPS").as_str());
    push_line(
        &mut out,
        "GPU benchmark duration",
        quantity(measurement.elapsed_seconds(), " seconds").as_str(),
    );
    assert(out@ =~= integrated_entry_text(*measurement));
    out
}

/// The lines of one discrete accelerator.
pub fn format_cuda_gpu_info(result: &GpuResult) -> (text: String)
    ensures
        text@ == discrete_entry_text(*result),
{
    let info = &result.info;
    let mut out = String::from_str("CUDA Device ");
    push_decimal(&mut out, info.device_id as u128);
    out.append(" Information:\n");
    push_line(&mut out, "Device", info.device.label().as_str());
    push_line(&mut out, "Name", text_or(&info.name));
    push_line(&mut out, "Total Memory", number(number_or(info.total_memory)).as_str());
    push_line(&mut out, "Free Memory", number(number_or(info.free_memory)).as_str());
    push_line(&mut out, "Used Memory", number(number_or(info.used_memory)).as_str());
    push_line(
        &mut out,
        "GPU Estimated FLOPS",
        quantity(result.measurement.throughput(), " TFLOPS").as_str(),
    );
    push_line(
        &mut out,
        "GPU benchmark duration",
        quantity(result.measurement.elapsed_seconds(), " seconds").as_str(),
    );
    out
}

/// The lines of the accelerators of a report, one after the other.
pub fn format_gpu_entries(entries: &Vec<GpuResult>) -> (text: String)
    ensures
        text@ == gpu_entries_text(entries@),
{
    let mut out = String::new();
    let mut index: usize = 0;
    while index < entries.len()
        invariant
            index <= entries.len(),
            out@ == gpu_entries_text(entries@.take(index as int)),
        decreases entries.len() - index,
    {
        let entry = &entries[index];
        let lines = match entry.info.device {
            DeviceKind::IntegratedUnified => format_mps_gpu_info(&entry.measurement),
            DeviceKind::DiscreteIndexed(_) => format_cuda_gpu_info(entry),
        };
        out.append(lines.as_str());
        proof {
            let longer = entries@.take(index as int + 1);
            assert(longer.drop_last() =~= entries@.take(index as int));
            assert(longer.last() == entries@[index as int]);
        }
        index = index + 1;
    }
    assert(entries@.take(index as int) =~= entries@);
    out
}

/// The accelerator section of the plain text.
pub fn format_gpu_info(entries: &Vec<GpuResult>) -> (text: String)
    ensures
        text@ == gpu_section_text(entries@),
{
    let mut out = String::from_str("=> GPU:\n");
    if entries.len() == 0 {
        out.append("No accelerator found\n");
    } else {
        let lines = format_gpu_entries(entries);
        out.append(lines.as_str());
    }
    out.append("\n");
    out
}

/// The battery section of the plain text.
pub fn format_battery_info(info: &BatteryInfo) -> (text: String)
    ensures
        text@ == battery_section_text(*info),
{
    let charging = match info.is_charging {
        Some(charging) => charging,
        None => false,
    };
    let mut out = String::from_str("=> Power:\n");
    push_line(&mut out, "Battery         ", truth(info.has_battery));
    push_line(&mut out, "State of charge ", quantity_or_none(info.charge_percent, "%").as_str());
    push_line(&mut out, "Charging        ", truth(charging));
    push_line(&mut out, "Capacity        ", quantity_or_none(info.wh_capacity, " Wh").as_str());
    out.append("\n");
    out
}

/// The network section of the plain text.
pub fn format_network_info(info: &NetworkInfo) -> (text: String)
    ensures
        text@ == network_section_text(*info),
{
    let mut out = String::from_str("=> Network:\n");
    push_line(&mut out, "Ping        ", count(info.ping_ms as u128, " ms").as_str());
    push_line(&mut out, "Public IP   ", info.public_ip.as_str());
    push_line(&mut out, "Download    ", quantity(info.download_mbps, " Mbps").as_str());
    push_line(&mut out, "Upload      ", quantity(info.upload_mbps, " Mbps").as_str());
    out.append("\n");
    out
}

/// The plain text of a report.
pub fn generate_plain_output(report: &BenchmarkReport) -> (text: String)
    ensures
        text@ == plain_text(report@),
{
    let mut out = String::new();
    let ghost start = out@;
    match &report.cpu {
        Some(result) => {
            let section = format_cpu_info(result);
            out.append(section.as_str());
        },
        None => {
            assert(out@ =~= start + Seq::<char>::empty());
        },
    }
    let ghost after_cpu = out@;
    match &report.gpu {
        Some(entries) => {
            let section = format_gpu_info(entries);
            out.append(section.as_str());
        },
        None => {
            assert(out@ =~= after_cpu + Seq::<char>::empty());
        },
    }
    let ghost after_gpu = out@;
    match &report.battery {
        Some(info) => {
            let section = format_battery_info(info);
            out.append(section.as_str());
        },
        None => {
            assert(out@ =~= after_gpu + Seq::<char>::empty());
        },
    }
    let ghost after_battery = out@;
    match &report.network {
        Some(info) => {
            let section = format_network_info(info);
            out.append(section.as_str());
        },
        None => {
            assert(out@ =~= after_battery + Seq::<char>::empty());
        },
    }
    out
}

/// The plain text depends on what a report holds and on nothing else: two
/// reports that hold the same give the same text.
pub proof fn lemma_text_is_determined(first: BenchmarkReport, second: BenchmarkReport)
    requires
        first@ == second@,
    ensures
        plain_text(first@) == plain_text(second@),
{
}

} // verus!
