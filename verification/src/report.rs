//! The report of one run: a sparse aggregate of the sections that were
//! asked for and came about.

use vstd::prelude::*;
use crate::benchmark::ComputeMeasurement;
use crate::info::cpu::CpuInfo;
use crate::info::gpu::GpuInfo;
use crate::info::network::NetworkInfo;
use crate::info::power::BatteryInfo;

verus! {

/// The processor section: the system snapshot and the measurement of the
/// processor benchmark.
#[derive(Clone, Debug, PartialEq, Eq)]
pub struct CpuResult {
    pub info: CpuInfo,
    pub measurement: ComputeMeasurement,
}

/// One entry of the accelerator section: a device and its measurement.
#[derive(Clone, Debug, PartialEq, Eq)]
pub struct GpuResult {
    pub info: GpuInfo,
    pub measurement: ComputeMeasurement,
}

/// The finished report. A section is present only if its feature was
/// selected and came about; the accelerator section may be present and
/// empty, which says that no device was found or none could be measured.
#[derive(Clone, Debug, PartialEq, Eq)]
pub struct BenchmarkReport {
    pub cpu: Option<CpuResult>,
    pub gpu: Option<Vec<GpuResult>>,
    pub battery: Option<BatteryInfo>,
    pub network: Option<NetworkInfo>,
}

/// A report in the making. Sections are added one by one; `finalize` turns
/// what was gathered into the report.
#[derive(Clone, Debug, PartialEq, Eq)]
pub struct ReportBuilder {
    pub cpu: Option<CpuResult>,
    pub gpu: Option<Vec<GpuResult>>,
    pub battery: Option<BatteryInfo>,
    pub network: Option<NetworkInfo>,
}

/// What a report holds, the accelerator entries as a sequence.
pub struct ReportView {
    pub cpu: Option<CpuResult>,
    pub gpu: Option<Seq<GpuResult>>,
    pub battery: Option<BatteryInfo>,
    pub network: Option<NetworkInfo>,
}

/// The entries of an accelerator section as a sequence.
pub open spec fn entries_of(list: Option<Vec<GpuResult>>) -> Option<Seq<GpuResult>> {
    match list {
        Some(entries) => Some(entries@),
        None => None,
    }
}

/// The report without any section.
pub open spec fn empty_report() -> ReportView {
    ReportView { cpu: None, gpu: None, battery: None, network: None }
}

impl View for BenchmarkReport {
    type V = ReportView;

    open spec fn view(&self) -> ReportView {
        ReportView {
            cpu: self.cpu,
            gpu: entries_of(self.gpu),
            battery: self.battery,
            network: self.network,
        }
    }
}

impl View for ReportBuilder {
    type V = ReportView;

    open spec fn view(&self) -> ReportView {
        ReportView {
            cpu: self.cpu,
            gpu: entries_of(self.gpu),
            battery: self.battery,
            network: self.network,
        }
    }
}

impl ReportView {
    /// This report with the processor section set.
    pub open spec fn with_cpu(self, result: CpuResult) -> ReportView {
        ReportView { cpu: Some(result), ..self }
    }

    /// This report with an accelerator section; one that is there already
    /// stays as it is, a new one is empty.
    pub open spec fn with_gpu_section(self) -> ReportView {
        match self.gpu {
            Some(_) => self,
            None => ReportView { gpu: Some(Seq::empty()), ..self },
        }
    }

    /// This report with one more entry at the end of the accelerator
    /// section.
    pub open spec fn with_gpu_result(self, result: GpuResult) -> ReportView {
        ReportView { gpu: Some(self.with_gpu_section().gpu->0.push(result)), ..self }
    }

    /// This report with the battery section set.
    pub open spec fn with_battery(self, info: BatteryInfo) -> ReportView {
        ReportView { battery: Some(info), ..self }
    }

    /// This report with the network section set.
    pub open spec fn with_network(self, info: NetworkInfo) -> ReportView {
        ReportView { network: Some(info), ..self }
    }
}

impl ReportBuilder {
    /// A builder without any section.
    pub fn new() -> (builder: ReportBuilder)
        ensures
            builder@ == empty_report(),
    {
        ReportBuilder { cpu: None, gpu: None, battery: None, network: None }
    }

    /// Sets the processor section.
    pub fn set_cpu(&mut self, info: CpuInfo, measurement: ComputeMeasurement)
        ensures
            final(self)@ == old(self)@.with_cpu(CpuResult { info, measurement }),
    {
        self.cpu = Some(CpuResult { info, measurement });
    }

    /// Makes sure there is an accelerator section, empty at first.
    pub fn open_gpu_section(&mut self)
        ensures
            final(self)@ == old(self)@.with_gpu_section(),
    {
        if self.gpu.is_none() {
            self.gpu = Some(Vec::new());
        }
    }

    /// Adds one entry to the end of the accelerator section.
    pub fn add_gpu_result(&mut self, info: GpuInfo, measurement: ComputeMeasurement)
        ensures
            final(self)@ == old(self)@.with_gpu_result(GpuResult { info, measurement }),
    {
        let mut entries: Vec<GpuResult> = match self.gpu.take() {
            Some(entries) => entries,
            None => Vec::new(),
        };
        entries.push(GpuResult { info, measurement });
        self.gpu = Some(entries);
    }

    /// Sets the battery section.
    pub fn set_battery(&mut self, info: BatteryInfo)
        ensures
            final(self)@ == old(self)@.with_battery(info),
    {
        self.battery = Some(info);
    }

    /// Sets the network section.
    pub fn set_network(&mut self, info: NetworkInfo)
        ensures
            final(self)@ == old(self)@.with_network(info),
    {
        self.network = Some(info);
    }

    /// The report of what was gathered.
    pub fn finalize(self) -> (report: BenchmarkReport)
        ensures
            report@ == self@,
    {
        BenchmarkReport {
            cpu: self.cpu,
            gpu: self.gpu,
            battery: self.battery,
            network: self.network,
        }
    }
}

} // verus!
