//! The run of one invocation: which measurement is due next, and what an
//! outcome does to the report.
//!
//! A run is a single pass over the stages: system snapshot, processor
//! benchmark, accelerator enumeration, one accelerator benchmark per
//! device, battery, network. A stage is entered only if its feature is
//! selected. The caller performs the action that a stage asks for and hands
//! back what came of it; a failure leaves the section of that stage out of
//! the report, or one device out of the accelerator section, and the run
//! goes on as it would have after a success. A benchmark whose clock
//! stood still counts as failed.

use vstd::prelude::*;
use vstd::string::StringExecFns;
use crate::benchmark::benchmark_cpu;
use crate::benchmark::benchmark_gpu;
use crate::benchmark::lemma_measured_is_well_formed;
use crate::benchmark::measured;
use crate::benchmark::plan_of;
use crate::benchmark::BenchmarkPlan;
use crate::benchmark::ComputePath;
use crate::benchmark::CPU_ITERATIONS;
use crate::benchmark::GPU_ITERATIONS;
use crate::info::cpu::cpu_info_of;
use crate::info::cpu::get_cpu_info;
use crate::info::cpu::CpuInfo;
use crate::info::cpu::SystemCounters;
use crate::info::gpu::device_of;
use crate::info::gpu::DeviceKind;
use crate::info::network::NetworkError;
use crate::info::network::NetworkInfo;
use crate::info::power::battery_info_of;
use crate::info::power::get_battery_info;
use crate::info::power::BatteryReading;
use crate::platform::backend_of;
use crate::platform::detect_backend;
use crate::platform::AcceleratorBackend;
use crate::report::empty_report;
use crate::report::BenchmarkReport;
use crate::report::CpuResult;
use crate::report::GpuResult;
use crate::report::ReportBuilder;
use crate::report::ReportView;

verus! {

/// The features of a run, each selected or not.
#[derive(Clone, Copy, Debug, PartialEq, Eq, Structural)]
pub struct FeatureSet {
    pub cpu: bool,
    pub gpu: bool,
    pub battery: bool,
    pub network: bool,
}

/// What a run waits for.
#[derive(Clone, Copy, Debug, PartialEq, Eq, Structural)]
pub enum Stage {
    /// The system snapshot.
    Snapshot,
    /// The timing of the processor benchmark.
    Cpu,
    /// The number of discrete devices.
    DeviceCount,
    /// The timing of the benchmark on the device that is next.
    Device,
    /// The battery readings.
    Battery,
    /// The network record.
    Network,
    /// Nothing: the report is complete.
    Reported,
}

/// What the caller is asked to do.
#[derive(Clone, Copy, Debug, PartialEq, Eq, Structural)]
pub enum Action {
    /// Read the counters of the operating system.
    SnapshotSystem,
    /// Run the processor benchmark with this plan.
    BenchmarkCpu(BenchmarkPlan),
    /// Ask the driver how many discrete devices there are.
    CountDevices,
    /// Run the accelerator benchmark with this plan on this device.
    BenchmarkDevice { device: DeviceKind, plan: BenchmarkPlan },
    /// Read every battery of the host.
    ReadBattery,
    /// Probe the network.
    ProbeNetwork,
    /// Take the report.
    Report,
}

/// What came of an action.
#[derive(Debug, PartialEq, Eq)]
pub enum Event {
    /// The counters of the operating system.
    Snapshot(SystemCounters),
    /// The timed loop of a benchmark took this long.
    Timed { elapsed_nanos: u64 },
    /// A benchmark did not run to its end.
    MeasurementFailed,
    /// The driver counts this many discrete devices.
    DevicesCounted(usize),
    /// The driver could not be asked.
    DevicesUnavailable,
    /// The readings of the batteries of the host, in its order.
    Battery(Vec<BatteryReading>),
    /// The batteries could not be asked.
    BatteryUnavailable,
    /// The network record, or why there is none.
    Network(Result<NetworkInfo, NetworkError>),
}

/// Why the orchestrator turned a call down.
#[derive(Clone, Copy, Debug, PartialEq, Eq, Structural)]
pub enum OrchestratorError {
    /// The event does not answer the action that is due.
    UnexpectedEvent,
    /// The report was asked for before the run was through.
    NotFinished,
}

/// The state of a run.
#[derive(Clone, Debug, PartialEq, Eq)]
pub struct Orchestrator {
    pub features: FeatureSet,
    pub stage: Stage,
    /// The system snapshot, kept while the processor benchmark runs.
    pub snapshot: Option<CpuInfo>,
    /// The backend of the host, once the snapshot was taken.
    pub backend: Option<AcceleratorBackend>,
    /// How many devices are to be measured.
    pub device_count: usize,
    /// Which of them is next.
    pub next_device: usize,
    pub report: ReportBuilder,
}

/// The state of a run, the report as what it holds.
pub struct OrchestratorView {
    pub features: FeatureSet,
    pub stage: Stage,
    pub snapshot: Option<CpuInfo>,
    pub backend: Option<AcceleratorBackend>,
    pub device_count: usize,
    pub next_device: usize,
    pub report: ReportView,
}

impl View for Orchestrator {
    type V = OrchestratorView;

    open spec fn view(&self) -> OrchestratorView {
        OrchestratorView {
            features: self.features,
            stage: self.stage,
            snapshot: self.snapshot,
            backend: self.backend,
            device_count: self.device_count,
            next_device: self.next_device,
            report: self.report@,
        }
    }
}

/// Whether one of the names is `name`.
pub open spec fn names_contain(names: Seq<String>, name: Seq<char>) -> bool {
    exists|i: int| 0 <= i < names.len() && (#[trigger] names[i])@ == name
}

/// The features that a list of names selects. Names that are no feature
/// select nothing.
pub open spec fn features_of(names: Seq<String>) -> FeatureSet {
    FeatureSet {
        cpu: names_contain(names, "cpu"@),
        gpu: names_contain(names, "gpu"@),
        battery: names_contain(names, "battery"@),
        network: names_contain(names, "network"@),
    }
}

impl FeatureSet {
    /// Every feature.
    pub fn all() -> (set: FeatureSet)
        ensures
            set == (FeatureSet { cpu: true, gpu: true, battery: true, network: true }),
    {
        FeatureSet { cpu: true, gpu: true, battery: true, network: true }
    }

    /// No feature.
    pub fn none() -> (set: FeatureSet)
        ensures
            set == (FeatureSet { cpu: false, gpu: false, battery: false, network: false }),
    {
        FeatureSet { cpu: false, gpu: false, battery: false, network: false }
    }

    /// The features named in a list: `cpu`, `gpu`, `battery`, `network`.
    pub fn from_names(names: &Vec<String>) -> (set: FeatureSet)
        ensures
            set == features_of(names@),
    {
        let cpu = String::from_str("cpu");
        let gpu = String::from_str("gpu");
        let battery = String::from_str("battery");
        let network = String::from_str("network");
        let mut set = FeatureSet { cpu: false, gpu: false, battery: false, network: false };
        let mut index: usize = 0;
        while index < names.len()
            invariant
                index <= names.len(),
                cpu@ == "cpu"@,
                gpu@ == "gpu"@,
                battery@ == "battery"@,
                network@ == "network"@,
                set == features_of(names@.take(index as int)),
            decreases names.len() - index,
        {
            let ghost before = names@.take(index as int);
            let ghost after = names@.take(index as int + 1);
            let name = &names[index];
            proof {
                assert(after.len() == before.len() + 1);
                assert(after[index as int] == names@[index as int]);
                assert forall|wanted: Seq<char>| #[trigger]
                    names_contain(after, wanted) == (names_contain(before, wanted) || name@
                        == wanted) by {
                    if names_contain(before, wanted) {
                        let i = choose|i: int|
                            0 <= i < before.len() && (#[trigger] before[i])@ == wanted;
                        assert(after[i] == before[i]);
                    }
                    if names_contain(after, wanted) {
                        let i = choose|i: int|
                            0 <= i < after.len() && (#[trigger] after[i])@ == wanted;
                        if i < index {
                            assert(before[i] == after[i]);
                        }
                    }
                }
            }
            if *name == cpu {
                set.cpu = true;
            }
            if *name == gpu {
                set.gpu = true;
            }
            if *name == battery {
                set.battery = true;
            }
            if *name == network {
                set.network = true;
            }
            index = index + 1;
        }
        assert(names@.take(index as int) =~= names@);
        set
    }
}

impl OrchestratorView {
    /// How many devices are still to be measured.
    pub open spec fn devices_left(self) -> nat {
        if self.next_device < self.device_count {
            (self.device_count - self.next_device) as nat
        } else {
            0
        }
    }

    /// The device that is next: the integrated one on a unified host, else
    /// the discrete one with the next index.
    pub open spec fn current_device(self) -> DeviceKind {
        match self.backend {
            Some(AcceleratorBackend::IntegratedUnified) => DeviceKind::IntegratedUnified,
            _ => DeviceKind::DiscreteIndexed(self.next_device),
        }
    }

    /// Moves on to the network stage, or to the end where the network is
    /// not selected.
    pub open spec fn enter_network(self) -> OrchestratorView {
        if self.features.network {
            OrchestratorView { stage: Stage::Network, ..self }
        } else {
            OrchestratorView { stage: Stage::Reported, ..self }
        }
    }

    /// Moves on to the battery stage, or past it where the battery is not
    /// selected.
    pub open spec fn enter_battery(self) -> OrchestratorView {
        if self.features.battery {
            OrchestratorView { stage: Stage::Battery, ..self }
        } else {
            self.enter_network()
        }
    }

    /// Moves on to the accelerator stages, or past them where the
    /// accelerator is not selected. On a unified host the one integrated
    /// device is measured at once; on any other host the driver is asked
    /// for its devices first.
    pub open spec fn enter_gpu(self) -> OrchestratorView {
        if self.features.gpu {
            match self.backend {
                Some(AcceleratorBackend::IntegratedUnified) => OrchestratorView {
                    stage: Stage::Device,
                    device_count: 1,
                    next_device: 0,
                    report: self.report.with_gpu_section(),
                    ..self
                },
                _ => OrchestratorView { stage: Stage::DeviceCount, ..self },
            }
        } else {
            self.enter_battery()
        }
    }

    /// Moves past the device that is next: on to the one after it, or out
    /// of the accelerator stages after the last.
    pub open spec fn device_done(self) -> OrchestratorView {
        if self.devices_left() <= 1 {
            self.enter_battery()
        } else {
            OrchestratorView { next_device: (self.next_device + 1) as usize, ..self }
        }
    }

    /// The action that is due.
    pub open spec fn action(self) -> Action {
        match self.stage {
            Stage::Snapshot => Action::SnapshotSystem,
            Stage::Cpu => Action::BenchmarkCpu(plan_of(ComputePath::Cpu, CPU_ITERATIONS)),
            Stage::DeviceCount => Action::CountDevices,
            Stage::Device => Action::BenchmarkDevice {
                device: self.current_device(),
                plan: plan_of(ComputePath::Gpu, GPU_ITERATIONS),
            },
            Stage::Battery => Action::ReadBattery,
            Stage::Network => Action::ProbeNetwork,
            Stage::Reported => Action::Report,
        }
    }

    /// The state after an event, or `None` where the event does not answer
    /// the action that is due.
    pub open spec fn step(self, event: Event) -> Option<OrchestratorView> {
        match (self.stage, event) {
            (Stage::Snapshot, Event::Snapshot(counters)) => {
                let info = cpu_info_of(counters);
                let detected = OrchestratorView {
                    backend: Some(backend_of(info.arch.deep_view(), info.os@)),
                    ..self
                };
                if self.features.cpu {
                    Some(OrchestratorView { stage: Stage::Cpu, snapshot: Some(info), ..detected })
                } else {
                    Some(detected.enter_gpu())
                }
            },
            (Stage::Cpu, Event::Timed { elapsed_nanos }) => {
                let report = match (
                    self.snapshot,
                    measured(plan_of(ComputePath::Cpu, CPU_ITERATIONS), elapsed_nanos),
                ) {
                    (Some(info), Some(measurement)) => self.report.with_cpu(
                        CpuResult { info, measurement },
                    ),
                    _ => self.report,
                };
                Some(OrchestratorView { snapshot: None, report, ..self }.enter_gpu())
            },
            (Stage::Cpu, Event::MeasurementFailed) => Some(
                OrchestratorView { snapshot: None, ..self }.enter_gpu(),
            ),
            (Stage::DeviceCount, Event::DevicesCounted(count)) => {
                let counted = OrchestratorView {
                    device_count: count,
                    next_device: 0,
                    report: self.report.with_gpu_section(),
                    ..self
                };
                if count == 0 {
                    Some(counted.enter_battery())
                } else {
                    Some(OrchestratorView { stage: Stage::Device, ..counted })
                }
            },
            (Stage::DeviceCount, Event::DevicesUnavailable) => Some(
                OrchestratorView { report: self.report.with_gpu_section(), ..self }.enter_battery(),
            ),
            (Stage::Device, Event::Timed { elapsed_nanos }) => match measured(
                plan_of(ComputePath::Gpu, GPU_ITERATIONS),
                elapsed_nanos,
            ) {
                Some(measurement) => Some(
                    OrchestratorView {
                        report: self.report.with_gpu_result(
                            GpuResult { info: device_of(self.current_device()), measurement },
                        ),
                        ..self
                    }.device_done(),
                ),
                None => Some(self.device_done()),
            },
            (Stage::Device, Event::MeasurementFailed) => Some(self.device_done()),
            (Stage::Battery, Event::Battery(readings)) => Some(
                OrchestratorView {
                    report: self.report.with_battery(battery_info_of(readings@)),
                    ..self
                }.enter_network(),
            ),
            (Stage::Battery, Event::BatteryUnavailable) => Some(self.enter_network()),
            (Stage::Network, Event::Network(Ok(info))) => Some(
                OrchestratorView {
                    stage: Stage::Reported,
                    report: self.report.with_network(info),
                    ..self
                },
            ),
            (Stage::Network, Event::Network(Err(_))) => Some(
                OrchestratorView { stage: Stage::Reported, ..self },
            ),
            _ => None,
        }
    }
}

/// The state in which a run with the given features starts: nothing
/// gathered, and waiting for the first stage that the features ask for.
/// The snapshot is taken where the processor or the accelerator is
/// selected, since the backend is read off it.
pub open spec fn initial(features: FeatureSet) -> OrchestratorView {
    let idle = OrchestratorView {
        features,
        stage: Stage::Snapshot,
        snapshot: None,
        backend: None,
        device_count: 0,
        next_device: 0,
        report: empty_report(),
    };
    if features.cpu || features.gpu {
        idle
    } else {
        idle.enter_battery()
    }
}

impl Orchestrator {
    /// Starts a run with the given features.
    pub fn new(features: FeatureSet) -> (run: Orchestrator)
        ensures
            run@ == initial(features),
            run@.well_formed(),
    {
        let mut run = Orchestrator {
            features,
            stage: Stage::Snapshot,
            snapshot: None,
            backend: None,
            device_count: 0,
            next_device: 0,
            report: ReportBuilder::new(),
        };
        if !(features.cpu || features.gpu) {
            run.enter_battery();
        }
        run
    }

    fn enter_network(&mut self)
        ensures
            final(self)@ == old(self)@.enter_network(),
    {
        if self.features.network {
            self.stage = Stage::Network;
        } else {
            self.stage = Stage::Reported;
        }
    }

    fn enter_battery(&mut self)
        ensures
            final(self)@ == old(self)@.enter_battery(),
    {
        if self.features.battery {
            self.stage = Stage::Battery;
        } else {
            self.enter_network();
        }
    }

    fn enter_gpu(&mut self)
        ensures
            final(self)@ == old(self)@.enter_gpu(),
    {
        if self.features.gpu {
            match self.backend {
                Some(AcceleratorBackend::IntegratedUnified) => {
                    self.stage = Stage::Device;
                    self.device_count = 1;
                    self.next_device = 0;
                    self.report.open_gpu_section();
                },
                _ => {
                    self.stage = Stage::DeviceCount;
                },
            }
        } else {
            self.enter_battery();
        }
    }

    fn device_done(&mut self)
        ensures
            final(self)@ == old(self)@.device_done(),
    {
        if self.next_device < self.device_count && self.device_count - self.next_device > 1 {
            self.next_device = self.next_device + 1;
        } else {
            self.enter_battery();
        }
    }

    /// The device that is next.
    pub fn current_device(&self) -> (device: DeviceKind)
        ensures
            device == self@.current_device(),
    {
        match self.backend {
            Some(AcceleratorBackend::IntegratedUnified) => DeviceKind::IntegratedUnified,
            _ => DeviceKind::DiscreteIndexed(self.next_device),
        }
    }

    /// The action that is due.
    pub fn next_action(&self) -> (action: Action)
        ensures
            action == self@.action(),
    {
        match self.stage {
            Stage::Snapshot => Action::SnapshotSystem,
            Stage::Cpu => Action::BenchmarkCpu(BenchmarkPlan::cpu(CPU_ITERATIONS)),
            Stage::DeviceCount => Action::CountDevices,
            Stage::Device => Action::BenchmarkDevice {
                device: self.current_device(),
                plan: BenchmarkPlan::gpu(GPU_ITERATIONS),
            },
            Stage::Battery => Action::ReadBattery,
            Stage::Network => Action::ProbeNetwork,
            Stage::Reported => Action::Report,
        }
    }

    /// Takes in what came of the action that is due and moves on. An event
    /// that does not answer that action is turned down and changes nothing.
    pub fn handle(&mut self, event: Event) -> (result: Result<(), OrchestratorError>)
        ensures
            old(self)@.step(event) matches Some(next) ==> result is Ok && final(self)@ == next,
            old(self)@.step(event) is None ==> result == Err::<(), OrchestratorError>(
                OrchestratorError::UnexpectedEvent,
            ) && final(self)@ == old(self)@,
            old(self)@.well_formed() ==> final(self)@.well_formed(),
    {
        proof {
            if old(self)@.well_formed() {
                lemma_step_preserves_well_formed(old(self)@, event);
            }
        }
        match (self.stage, event) {
            (Stage::Snapshot, Event::Snapshot(counters)) => {
                let info = get_cpu_info(counters);
                self.backend = Some(detect_backend(&info.arch, &info.os));
                if self.features.cpu {
                    self.snapshot = Some(info);
                    self.stage = Stage::Cpu;
                } else {
                    self.enter_gpu();
                }
                Ok(())
            },
            (Stage::Cpu, Event::Timed { elapsed_nanos }) => {
                match (self.snapshot.take(), benchmark_cpu(CPU_ITERATIONS, elapsed_nanos)) {
                    (Some(info), Some(measurement)) => {
                        self.report.set_cpu(info, measurement);
                    },
                    _ => {},
                }
                self.enter_gpu();
                Ok(())
            },
            (Stage::Cpu, Event::MeasurementFailed) => {
                self.snapshot = None;
                self.enter_gpu();
                Ok(())
            },
            (Stage::DeviceCount, Event::DevicesCounted(count)) => {
                self.device_count = count;
                self.next_device = 0;
                self.report.open_gpu_section();
                if count == 0 {
                    self.enter_battery();
                } else {
                    self.stage = Stage::Device;
                }
                Ok(())
            },
            (Stage::DeviceCount, Event::DevicesUnavailable) => {
                self.report.open_gpu_section();
                self.enter_battery();
                Ok(())
            },
            (Stage::Device, Event::Timed { elapsed_nanos }) => {
                match benchmark_gpu(GPU_ITERATIONS, elapsed_nanos) {
                    Some(measurement) => {
                        let info = self.current_device().describe();
                        self.report.add_gpu_result(info, measurement);
                    },
                    None => {},
                }
                self.device_done();
                Ok(())
            },
            (Stage::Device, Event::MeasurementFailed) => {
                self.device_done();
                Ok(())
            },
            (Stage::Battery, Event::Battery(readings)) => {
                self.report.set_battery(get_battery_info(&readings));
                self.enter_network();
                Ok(())
            },
            (Stage::Battery, Event::BatteryUnavailable) => {
                self.enter_network();
                Ok(())
            },
            (Stage::Network, Event::Network(Ok(info))) => {
                self.report.set_network(info);
                self.stage = Stage::Reported;
                Ok(())
            },
            (Stage::Network, Event::Network(Err(_))) => {
                self.stage = Stage::Reported;
                Ok(())
            },
            _ => Err(OrchestratorError::UnexpectedEvent),
        }
    }

    /// The report of a run that is through. A run that still waits for
    /// something has none.
    pub fn finalize(self) -> (result: Result<BenchmarkReport, OrchestratorError>)
        ensures
            self.stage == Stage::Reported ==> (result matches Ok(report) && report@
                == self@.report),
            self.stage != Stage::Reported ==> result == Err::<BenchmarkReport, OrchestratorError>(
                OrchestratorError::NotFinished,
            ),
    {
        match self.stage {
            Stage::Reported => Ok(self.report.finalize()),
            _ => Err(OrchestratorError::NotFinished),
        }
    }
}

impl Stage {
    /// How many kinds of stage lie ahead at most: a run only ever moves to
    /// a stage of lower rank, but for the device stage, which it leaves
    /// after the last device.
    pub open spec fn rank(self) -> nat {
        match self {
            Stage::Snapshot => 6,
            Stage::Cpu => 5,
            Stage::DeviceCount => 4,
            Stage::Device => 3,
            Stage::Battery => 2,
            Stage::Network => 1,
            Stage::Reported => 0,
        }
    }
}

impl Event {
    /// Whether the event reports that an action failed.
    pub open spec fn is_failure(self) -> bool {
        match self {
            Event::MeasurementFailed => true,
            Event::DevicesUnavailable => true,
            Event::BatteryUnavailable => true,
            Event::Network(Err(_)) => true,
            _ => false,
        }
    }
}

impl OrchestratorView {
    /// Index below which the devices of the entries gathered so far lie.
    pub open spec fn devices_seen(self) -> nat {
        if self.stage == Stage::Device {
            self.next_device as nat
        } else {
            self.device_count as nat
        }
    }

    /// Whether the entries of the accelerator section are as a run leaves
    /// them: each is an accelerator measurement of a device that was due,
    /// and they stand in the order of the devices, none twice.
    pub open spec fn entries_in_order(self) -> bool {
        match self.report.gpu {
            Some(entries) => {
                &&& forall|k: int|
                    0 <= k < entries.len() ==> {
                        &&& (#[trigger] entries[k]).info == device_of(entries[k].info.device)
                        &&& entries[k].info.device_id < self.devices_seen()
                        &&& entries[k].measurement.path == ComputePath::Gpu
                        &&& entries[k].measurement.well_formed()
                    }
                &&& forall|j: int, k: int|
                    0 <= j < k < entries.len() ==> (#[trigger] entries[j]).info.device_id < (
                    #[trigger] entries[k]).info.device_id
            },
            None => true,
        }
    }

    /// What holds of every state of a run.
    ///
    /// A stage is waited for only if its feature is selected and what it
    /// needs is there. A section is in the report only if its feature is
    /// selected and its stage is over; the accelerator section is there,
    /// empty or not, as soon as the accelerator stages of a selected
    /// accelerator are over.
    pub open spec fn well_formed(self) -> bool {
        &&& self.stage == Stage::Snapshot ==> (self.features.cpu || self.features.gpu)
            && self.backend is None
        &&& (self.stage == Stage::Cpu <==> self.snapshot is Some)
        &&& self.stage == Stage::Cpu ==> self.features.cpu && self.backend is Some
        &&& self.stage == Stage::DeviceCount ==> self.features.gpu && self.backend == Some(
            AcceleratorBackend::Discrete,
        )
        &&& self.stage == Stage::Device ==> self.features.gpu && self.backend is Some
            && self.next_device < self.device_count && self.report.gpu is Some
        &&& self.stage == Stage::Device && self.backend == Some(
            AcceleratorBackend::IntegratedUnified,
        ) ==> self.device_count == 1
        &&& self.stage == Stage::Battery ==> self.features.battery
        &&& self.stage == Stage::Network ==> self.features.network
        &&& self.report.cpu matches Some(result) ==> self.features.cpu && self.stage.rank()
            < Stage::Cpu.rank() && result.measurement.path == ComputePath::Cpu
            && result.measurement.well_formed()
        &&& self.report.gpu is Some ==> self.features.gpu && self.stage.rank()
            < Stage::DeviceCount.rank()
        &&& self.report.battery is Some ==> self.features.battery && self.stage.rank()
            < Stage::Battery.rank()
        &&& self.report.network is Some ==> self.features.network && self.stage.rank()
            < Stage::Network.rank()
        &&& self.features.gpu && self.stage.rank() < Stage::Device.rank() ==> self.report.gpu
            is Some
        &&& self.entries_in_order()
    }
}

/// The state of a run with the given features after the given events.
/// An event that is turned down changes nothing.
pub open spec fn run(features: FeatureSet, events: Seq<Event>) -> OrchestratorView
    decreases events.len(),
{
    if events.len() == 0 {
        initial(features)
    } else {
        let before = run(features, events.drop_last());
        match before.step(events.last()) {
            Some(after) => after,
            None => before,
        }
    }
}

/// A run starts in a well-formed state with an empty report.
pub proof fn lemma_initial_well_formed(features: FeatureSet)
    ensures
        initial(features).well_formed(),
        initial(features).features == features,
        initial(features).report == empty_report(),
{
}

/// An event that is taken in leaves a well-formed state well formed and
/// the selected features as they were.
pub proof fn lemma_step_preserves_well_formed(state: OrchestratorView, event: Event)
    requires
        state.well_formed(),
    ensures
        state.step(event) matches Some(next) ==> next.well_formed() && next.features
            == state.features,
{
    match state.step(event) {
        Some(next) => {
            match (state.stage, event) {
                (Stage::Cpu, Event::Timed { elapsed_nanos }) => {
                    lemma_measured_is_well_formed(
                        plan_of(ComputePath::Cpu, CPU_ITERATIONS),
                        elapsed_nanos,
                    );
                },
                (Stage::Device, Event::Timed { elapsed_nanos }) => {
                    let plan = plan_of(ComputePath::Gpu, GPU_ITERATIONS);
                    lemma_measured_is_well_formed(plan, elapsed_nanos);
                    let before = state.report.gpu->0;
                    match measured(plan, elapsed_nanos) {
                        Some(measurement) => {
                            let added = GpuResult {
                                info: device_of(state.current_device()),
                                measurement,
                            };
                            let after = next.report.gpu->0;
                            assert(after == before.push(added));
                            assert(added.info.device_id == state.next_device);
                            assert forall|k: int| 0 <= k < after.len() implies {
                                &&& (#[trigger] after[k]).info == device_of(after[k].info.device)
                                &&& after[k].info.device_id < next.devices_seen()
                                &&& after[k].measurement.path == ComputePath::Gpu
                                &&& after[k].measurement.well_formed()
                            } by {
                                if k < before.len() {
                                    assert(after[k] == before[k]);
                                }
                            }
                            assert forall|j: int, k: int|
                                0 <= j < k < after.len() implies (
                            #[trigger] after[j]).info.device_id < (
                            #[trigger] after[k]).info.device_id by {
                                assert(after[j] == before[j]);
                                if k < before.len() {
                                    assert(after[k] == before[k]);
                                }
                            }
                        },
                        None => {
                            assert forall|k: int| 0 <= k < before.len() implies (
                            #[trigger] before[k]).info.device_id < next.devices_seen() by {}
                        },
                    }
                },
                (Stage::Device, Event::MeasurementFailed) => {
                    let entries = state.report.gpu->0;
                    assert forall|k: int| 0 <= k < entries.len() implies (
                    #[trigger] entries[k]).info.device_id < next.devices_seen() by {}
                },
                _ => {},
            }
        },
        None => {},
    }
}

/// Every state of a run is well formed, whatever the events were, and the
/// features stay the ones the run was started with.
pub proof fn lemma_run_well_formed(features: FeatureSet, events: Seq<Event>)
    ensures
        run(features, events).well_formed(),
        run(features, events).features == features,
    decreases events.len(),
{
    if events.len() == 0 {
        lemma_initial_well_formed(features);
    } else {
        lemma_run_well_formed(features, events.drop_last());
        lemma_step_preserves_well_formed(run(features, events.drop_last()), events.last());
    }
}

/// The report of a run holds a section only for a selected feature, and
/// for a selected accelerator it holds the accelerator section whenever
/// the run is through: with the entries of the devices that were measured,
/// and empty where there was no device or none could be measured.
pub proof fn lemma_report_holds_selected_sections(features: FeatureSet, events: Seq<Event>)
    ensures
        ({
            let end = run(features, events);
            &&& !features.cpu ==> end.report.cpu is None
            &&& !features.gpu ==> end.report.gpu is None
            &&& !features.battery ==> end.report.battery is None
            &&& !features.network ==> end.report.network is None
            &&& features.gpu && end.stage == Stage::Reported ==> end.report.gpu is Some
        }),
{
    lemma_run_well_formed(features, events);
}

/// Every event that is taken in brings the run nearer to its end: the
/// stage falls in rank, or the run stays with the devices and one device
/// fewer is left. So a run takes in only finitely many events.
pub proof fn lemma_step_makes_progress(state: OrchestratorView, event: Event)
    ensures
        state.step(event) matches Some(next) ==> next.stage.rank() < state.stage.rank() || (
        next.stage == Stage::Device && state.stage == Stage::Device && next.devices_left()
            < state.devices_left()),
        state.stage == Stage::Reported ==> state.step(event) is None,
{
}

/// A failure is taken in exactly where the success of the same action is
/// (the snapshot has no failure), and it takes nothing out of the report:
/// every section stays as it was, but that an accelerator section may be
/// opened, empty. The run goes on: where a benchmark, the batteries or the
/// network failed, it waits for the same stage as after a success.
pub proof fn lemma_failure_is_isolated(state: OrchestratorView, failure: Event, success: Event)
    requires
        failure.is_failure(),
        !success.is_failure(),
        state.step(success) is Some,
    ensures
        state.step(failure) is Some <==> (failure is MeasurementFailed <==> success is Timed) && (
        failure is DevicesUnavailable <==> success is DevicesCounted) && (
        failure is BatteryUnavailable <==> success is Battery) && (failure is Network
            <==> success is Network),
        state.step(failure) matches Some(next) ==> {
            &&& next.report.cpu == state.report.cpu
            &&& next.report.battery == state.report.battery
            &&& next.report.network == state.report.network
            &&& next.report.gpu == state.report.gpu || next.report.gpu
                == state.report.with_gpu_section().gpu
            &&& state.stage != Stage::DeviceCount ==> next.stage == state.step(success)->0.stage
        },
{
}

} // verus!
