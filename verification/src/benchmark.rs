//! The compute benchmark: its workload, its schedule, and the throughput
//! that is derived from a timing.
//!
//! One benchmark multiplies two dense square matrices of a fixed dimension
//! a number of times and measures the wall-clock time of the whole loop. A
//! multiplication of two `n` by `n` matrices costs `2 * n^3` floating-point
//! operations. The multiplications themselves and the clock are run by the
//! caller; this module says what is run and in which order, and turns the
//! elapsed time into a measurement.

use vstd::prelude::*;
use crate::number::Quotient;

verus! {

/// Dimension of the square matrices of both compute paths.
pub const MATRIX_DIMENSION: u16 = 1024;

/// Timed multiplications of the processor benchmark.
pub const CPU_ITERATIONS: u64 = 5;

/// Timed multiplications of the accelerator benchmark.
pub const GPU_ITERATIONS: u64 = 1000;

/// Untimed multiplications that prime an accelerator before it is timed.
pub const GPU_WARMUP_ITERATIONS: u64 = 10;

/// Nanoseconds in one second.
pub const NANOS_PER_SECOND: u64 = 1_000_000_000;

/// Operations per second in one GFLOP/s.
pub const GIGA: u64 = 1_000_000_000;

/// Operations per second in one TFLOP/s.
pub const TERA: u64 = 1_000_000_000_000;

/// Where a benchmark runs: on the general-purpose processor or on an
/// accelerator device.
#[derive(Clone, Copy, Debug, PartialEq, Eq, Structural)]
pub enum ComputePath {
    Cpu,
    Gpu,
}

/// What the buffers of a workload are filled with.
#[derive(Clone, Copy, Debug, PartialEq, Eq, Structural)]
pub enum BufferFill {
    /// Every element is zero.
    Zeros,
    /// Every element is drawn uniformly from `[0, 1)`.
    UniformRandom,
}

/// The buffers one benchmark invocation allocates: `buffers` dense,
/// row-major matrices of `dimension` by `dimension` elements.
#[derive(Clone, Copy, Debug, PartialEq, Eq, Structural)]
pub struct Workload {
    pub dimension: u16,
    pub buffers: u8,
    pub fill: BufferFill,
}

/// What a benchmark runs: `warmup_iterations` untimed multiplications, then
/// `iterations` timed ones, on matrices of the given dimension.
#[derive(Clone, Copy, Debug, PartialEq, Eq, Structural)]
pub struct BenchmarkPlan {
    pub path: ComputePath,
    pub dimension: u16,
    pub warmup_iterations: u64,
    pub iterations: u64,
}

/// The outcome of one benchmark: how many floating-point operations the
/// timed loop performed and how long it took. Throughput is derived from
/// the two and never stored. A loop that performed operations took time:
/// see `well_formed`.
#[derive(Clone, Copy, Debug, PartialEq, Eq, Structural)]
pub struct ComputeMeasurement {
    pub path: ComputePath,
    pub operations: u128,
    pub elapsed_nanos: u64,
}

/// One thing the caller does for a benchmark.
#[derive(Clone, Copy, Debug, PartialEq, Eq, Structural)]
pub enum BenchmarkStep {
    /// Allocate the buffers of the workload.
    Allocate,
    /// Multiply once and discard the result; the clock is not running.
    WarmUp,
    /// Start the monotonic clock.
    StartTimer,
    /// Multiply once; the clock is running.
    Multiply,
    /// Stop the clock.
    StopTimer,
    /// Nothing is left to do.
    Finished,
}

/// A benchmark under way: a plan and how many of its steps were handed out.
#[derive(Clone, Copy, Debug, PartialEq, Eq, Structural)]
pub struct BenchmarkRun {
    pub plan: BenchmarkPlan,
    pub position: u128,
}

/// Floating-point operations of one multiplication: `2 * n^3`.
pub open spec fn multiply_operations(dimension: nat) -> nat {
    2 * dimension * dimension * dimension
}

/// Floating-point operations of `iterations` multiplications.
pub open spec fn total_operations(dimension: nat, iterations: nat) -> nat {
    multiply_operations(dimension) * iterations
}

/// Operations per second in one unit of a path's throughput: GFLOP/s on the
/// processor, TFLOP/s on an accelerator.
pub open spec fn unit_divisor(path: ComputePath) -> nat {
    match path {
        ComputePath::Cpu => GIGA as nat,
        ComputePath::Gpu => TERA as nat,
    }
}

/// The workload of a path: three zero matrices (two operands and the
/// accumulator) on the processor, two random operands on an accelerator.
pub open spec fn workload_of(path: ComputePath) -> Workload {
    match path {
        ComputePath::Cpu => Workload {
            dimension: MATRIX_DIMENSION,
            buffers: 3,
            fill: BufferFill::Zeros,
        },
        ComputePath::Gpu => Workload {
            dimension: MATRIX_DIMENSION,
            buffers: 2,
            fill: BufferFill::UniformRandom,
        },
    }
}

/// The plan of a path for a number of timed multiplications. Only an
/// accelerator is warmed up.
pub open spec fn plan_of(path: ComputePath, iterations: u64) -> BenchmarkPlan {
    BenchmarkPlan {
        path,
        dimension: MATRIX_DIMENSION,
        warmup_iterations: match path {
            ComputePath::Cpu => 0,
            ComputePath::Gpu => GPU_WARMUP_ITERATIONS,
        },
        iterations,
    }
}

/// The measurement that a plan yields when its timed loop took
/// `elapsed_nanos` nanoseconds.
pub open spec fn measurement_of(plan: BenchmarkPlan, elapsed_nanos: u64) -> ComputeMeasurement {
    ComputeMeasurement {
        path: plan.path,
        operations: total_operations(plan.dimension as nat, plan.iterations as nat) as u128,
        elapsed_nanos,
    }
}

/// What a plan yields when its timed loop took `elapsed_nanos`
/// nanoseconds: its measurement, or nothing where the clock claims that
/// one multiplication or more took no time at all.
pub open spec fn measured(plan: BenchmarkPlan, elapsed_nanos: u64) -> Option<ComputeMeasurement> {
    if plan.iterations >= 1 && elapsed_nanos == 0 {
        None
    } else {
        Some(measurement_of(plan, elapsed_nanos))
    }
}

/// Number of steps of a plan before it is finished.
pub open spec fn schedule_len(plan: BenchmarkPlan) -> nat {
    (plan.warmup_iterations + plan.iterations + 3) as nat
}

/// Position of the step that starts the clock.
pub open spec fn timer_start(plan: BenchmarkPlan) -> nat {
    (plan.warmup_iterations + 1) as nat
}

/// Position of the step that stops the clock.
pub open spec fn timer_stop(plan: BenchmarkPlan) -> nat {
    (plan.warmup_iterations + plan.iterations + 2) as nat
}

/// The step at a position of a plan's schedule: the allocation, the
/// warm-up multiplications, the start of the clock, the timed
/// multiplications, the stop of the clock.
pub open spec fn step_at(plan: BenchmarkPlan, position: nat) -> BenchmarkStep {
    if position == 0 {
        BenchmarkStep::Allocate
    } else if position < timer_start(plan) {
        BenchmarkStep::WarmUp
    } else if position == timer_start(plan) {
        BenchmarkStep::StartTimer
    } else if position < timer_stop(plan) {
        BenchmarkStep::Multiply
    } else if position == timer_stop(plan) {
        BenchmarkStep::StopTimer
    } else {
        BenchmarkStep::Finished
    }
}

/// Floating-point operations of one multiplication of two square matrices.
pub fn flops_per_multiply(dimension: u16) -> (flops: u64)
    ensures
        flops == multiply_operations(dimension as nat),
{
    let n: u64 = dimension as u64;
    assert(2 * n * n * n <= 2 * 65535 * 65535 * 65535) by (nonlinear_arith)
        requires
            n <= 65535,
    ;
    assert(2 * n * n <= 2 * 65535 * 65535) by (nonlinear_arith)
        requires
            n <= 65535,
    ;
    2 * n * n * n
}

/// Floating-point operations of `iterations` multiplications.
pub fn total_flops(dimension: u16, iterations: u64) -> (flops: u128)
    ensures
        flops == total_operations(dimension as nat, iterations as nat),
{
    let each: u64 = flops_per_multiply(dimension);
    assert(each as nat * iterations as nat <= 0xffff_ffff_ffff_ffff * 0xffff_ffff_ffff_ffff)
        by (nonlinear_arith)
        requires
            each <= 0xffff_ffff_ffff_ffff,
            iterations <= 0xffff_ffff_ffff_ffff,
    ;
    each as u128 * iterations as u128
}

impl ComputePath {
    /// The buffers a benchmark on this path allocates.
    pub fn workload(self) -> (w: Workload)
        ensures
            w == workload_of(self),
    {
        match self {
            ComputePath::Cpu => Workload {
                dimension: MATRIX_DIMENSION,
                buffers: 3,
                fill: BufferFill::Zeros,
            },
            ComputePath::Gpu => Workload {
                dimension: MATRIX_DIMENSION,
                buffers: 2,
                fill: BufferFill::UniformRandom,
            },
        }
    }
}

impl BenchmarkPlan {
    /// The processor benchmark with `iterations` timed multiplications and
    /// no warm-up.
    pub fn cpu(iterations: u64) -> (plan: BenchmarkPlan)
        ensures
            plan == plan_of(ComputePath::Cpu, iterations),
    {
        BenchmarkPlan {
            path: ComputePath::Cpu,
            dimension: MATRIX_DIMENSION,
            warmup_iterations: 0,
            iterations,
        }
    }

    /// The accelerator benchmark with `iterations` timed multiplications
    /// after the warm-up.
    pub fn gpu(iterations: u64) -> (plan: BenchmarkPlan)
        ensures
            plan == plan_of(ComputePath::Gpu, iterations),
    {
        BenchmarkPlan {
            path: ComputePath::Gpu,
            dimension: MATRIX_DIMENSION,
            warmup_iterations: GPU_WARMUP_ITERATIONS,
            iterations,
        }
    }

    /// The measurement of this plan for a timed loop of `elapsed_nanos`
    /// nanoseconds. A timing of zero for one multiplication or more is no
    /// measurement.
    pub fn measure(&self, elapsed_nanos: u64) -> (m: Option<ComputeMeasurement>)
        ensures
            m == measured(*self, elapsed_nanos),
            m matches Some(measurement) ==> measurement.well_formed(),
    {
        if self.iterations >= 1 && elapsed_nanos == 0 {
            return None;
        }
        proof {
            lemma_measured_is_well_formed(*self, elapsed_nanos);
        }
        Some(
            ComputeMeasurement {
                path: self.path,
                operations: total_flops(self.dimension, self.iterations),
                elapsed_nanos,
            },
        )
    }

    /// Starts a run of this plan at the first step of its schedule.
    pub fn start(&self) -> (run: BenchmarkRun)
        ensures
            run.plan == *self,
            run.position == 0,
    {
        BenchmarkRun { plan: *self, position: 0 }
    }
}

impl ComputeMeasurement {
    /// Whether the measurement can be one: a loop that performed
    /// operations took more than no time.
    pub open spec fn well_formed(self) -> bool {
        self.operations > 0 ==> self.elapsed_nanos > 0
    }

    /// Throughput in the unit of the path:
    /// `operations / (elapsed seconds * unit divisor)`, which is
    /// `operations / elapsed_nanos` in GFLOP/s and a thousandth of that in
    /// TFLOP/s. Not finite when no time elapsed.
    pub open spec fn throughput_value(self) -> Quotient {
        Quotient {
            numerator: self.operations,
            denominator: match self.path {
                ComputePath::Cpu => self.elapsed_nanos as u128,
                ComputePath::Gpu => (self.elapsed_nanos * 1000) as u128,
            },
        }
    }

    /// Duration of the timed loop in seconds.
    pub open spec fn elapsed_seconds_value(self) -> Quotient {
        Quotient { numerator: self.elapsed_nanos as u128, denominator: NANOS_PER_SECOND as u128 }
    }

    /// Throughput in the unit of the path: GFLOP/s on the processor,
    /// TFLOP/s on an accelerator.
    pub fn throughput(&self) -> (q: Quotient)
        ensures
            q == self.throughput_value(),
    {
        let denominator: u128 = match self.path {
            ComputePath::Cpu => self.elapsed_nanos as u128,
            ComputePath::Gpu => self.elapsed_nanos as u128 * 1000,
        };
        Quotient { numerator: self.operations, denominator }
    }

    /// Duration of the timed loop in seconds.
    pub fn elapsed_seconds(&self) -> (q: Quotient)
        ensures
            q == self.elapsed_seconds_value(),
    {
        Quotient { numerator: self.elapsed_nanos as u128, denominator: NANOS_PER_SECOND as u128 }
    }
}

impl BenchmarkRun {
    /// Whether every step of the schedule was handed out.
    pub open spec fn is_finished(self) -> bool {
        self.position >= schedule_len(self.plan)
    }

    /// Hands out the next step of the schedule and moves past it. Once the
    /// schedule is through, the answer is `Finished` and nothing changes.
    pub fn next_step(&mut self) -> (step: BenchmarkStep)
        ensures
            step == step_at(old(self).plan, old(self).position as nat),
            final(self).plan == old(self).plan,
            final(self).position == if old(self).is_finished() {
                old(self).position
            } else {
                (old(self).position + 1) as u128
            },
    {
        let start: u128 = self.plan.warmup_iterations as u128 + 1;
        let stop: u128 = start + self.plan.iterations as u128 + 1;
        let at: u128 = self.position;
        if at > stop {
            return BenchmarkStep::Finished;
        }
        self.position = at + 1;
        if at == 0 {
            BenchmarkStep::Allocate
        } else if at < start {
            BenchmarkStep::WarmUp
        } else if at == start {
            BenchmarkStep::StartTimer
        } else if at < stop {
            BenchmarkStep::Multiply
        } else {
            BenchmarkStep::StopTimer
        }
    }
}

/// Runs the arithmetic of the processor benchmark: the measurement of
/// `iterations` timed multiplications that took `elapsed_nanos`
/// nanoseconds. Its throughput is in GFLOP/s.
pub fn benchmark_cpu(iterations: u64, elapsed_nanos: u64) -> (m: Option<ComputeMeasurement>)
    ensures
        m == measured(plan_of(ComputePath::Cpu, iterations), elapsed_nanos),
        m matches Some(measurement) ==> measurement.well_formed(),
{
    BenchmarkPlan::cpu(iterations).measure(elapsed_nanos)
}

/// Runs the arithmetic of the accelerator benchmark: the measurement of
/// `iterations` timed multiplications that took `elapsed_nanos`
/// nanoseconds. Its throughput is in TFLOP/s.
pub fn benchmark_gpu(iterations: u64, elapsed_nanos: u64) -> (m: Option<ComputeMeasurement>)
    ensures
        m == measured(plan_of(ComputePath::Gpu, iterations), elapsed_nanos),
        m matches Some(measurement) ==> measurement.well_formed(),
{
    BenchmarkPlan::gpu(iterations).measure(elapsed_nanos)
}

/// What a plan yields is a well-formed measurement.
pub proof fn lemma_measured_is_well_formed(plan: BenchmarkPlan, elapsed_nanos: u64)
    ensures
        measured(plan, elapsed_nanos) matches Some(measurement) ==> measurement.well_formed(),
{
    if plan.iterations == 0 {
        assert(multiply_operations(plan.dimension as nat) * 0 == 0) by (nonlinear_arith);
    }
}

/// For one iteration or more, the throughput of what a plan yields is the
/// number of operations of the plan, `2 * n^3 * iterations`, divided by
/// the elapsed seconds times the unit divisor of the path. With the
/// elapsed time in nanoseconds the equation reads, cleared of fractions:
/// `throughput * (elapsed_nanos * divisor) == operations * 10^9`.
/// There is a measurement, and its throughput is finite, exactly when some
/// time elapsed.
pub proof fn lemma_throughput_formula(plan: BenchmarkPlan, elapsed_nanos: u64)
    requires
        plan.iterations >= 1,
    ensures
        measured(plan, elapsed_nanos) is Some <==> elapsed_nanos > 0,
        measured(plan, elapsed_nanos) matches Some(measurement) ==> ({
            let q = measurement.throughput_value();
            &&& q.is_finite()
            &&& q.numerator * (elapsed_nanos * unit_divisor(plan.path)) == (2 * plan.dimension
                * plan.dimension * plan.dimension * plan.iterations) * NANOS_PER_SECOND
                * q.denominator
        }),
{
    let n = plan.dimension as nat;
    let ops = total_operations(n, plan.iterations as nat);
    lemma_operations_fit(plan.dimension, plan.iterations);
    let q = measurement_of(plan, elapsed_nanos).throughput_value();
    assert(q.numerator == ops);
    let e = elapsed_nanos as int;
    let o = ops as int;
    match plan.path {
        ComputePath::Cpu => {
            assert(o * (e * 1_000_000_000) == o * 1_000_000_000 * e) by (nonlinear_arith);
        },
        ComputePath::Gpu => {
            assert(o * (e * 1_000_000_000_000) == o * 1_000_000_000 * (e * 1000))
                by (nonlinear_arith);
        },
    }
}

/// The operations of any plan fit in 128 bits, so a measurement holds them
/// without loss.
pub proof fn lemma_operations_fit(dimension: u16, iterations: u64)
    ensures
        total_operations(dimension as nat, iterations as nat) <= u128::MAX,
{
    let n = dimension as int;
    let i = iterations as int;
    assert(2 * n * n * n <= 2 * 65535 * 65535 * 65535) by (nonlinear_arith)
        requires
            0 <= n <= 65535,
    ;
    assert((2 * n * n * n) * i <= (2 * 65535 * 65535 * 65535) * 0xffff_ffff_ffff_ffff)
        by (nonlinear_arith)
        requires
            0 <= 2 * n * n * n <= 2 * 65535 * 65535 * 65535,
            0 <= i <= 0xffff_ffff_ffff_ffff,
    ;
}

/// The clock runs over the timed multiplications and over nothing else:
/// a step is a timed multiplication exactly when it lies between the start
/// and the stop of the clock, there are exactly `iterations` such steps,
/// and the allocation and every warm-up come before the clock starts.
pub proof fn lemma_timed_region(plan: BenchmarkPlan, position: nat)
    ensures
        step_at(plan, position) == BenchmarkStep::Multiply <==> timer_start(plan) < position
            < timer_stop(plan),
        timer_stop(plan) - timer_start(plan) - 1 == plan.iterations,
        step_at(plan, position) == BenchmarkStep::Allocate || step_at(plan, position)
            == BenchmarkStep::WarmUp ==> position < timer_start(plan),
        step_at(plan, position) == BenchmarkStep::WarmUp <==> 0 < position < timer_start(plan),
        timer_start(plan) - 1 == plan.warmup_iterations,
        step_at(plan, position) == BenchmarkStep::Finished <==> position >= schedule_len(plan),
{
}

} // verus!
