//! Measurement and report engine of a small system benchmark.
//!
//! The library holds what such a tool decides and computes: the plan and
//! schedule of the matrix-multiplication benchmarks and the throughput
//! derived from a timing, the choice of the accelerator backend, the
//! enumeration of devices, the run that gathers the selected sections into
//! one report, and the plain-text and JSON forms of that report. Reading
//! the host, running the multiplications and writing the output are left to
//! the caller, who hands in what was observed as plain values.
//!
//! Figures that the library derives are kept as exact quotients of
//! integers; see [`number::Quotient`]. Figures that it is handed are kept
//! as decimals in the digits in which they were shown; see
//! [`decimal::Figure`].

pub mod benchmark;
pub mod decimal;
pub mod helpers;
pub mod info;
pub mod number;
pub mod options;
pub mod orchestrator;
pub mod platform;
pub mod render;
pub mod report;
