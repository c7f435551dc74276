//! Which accelerator backend a host can reach.
//!
//! An Apple-silicon host, one whose architecture is `arm64` and whose
//! operating system is `macos`, has one integrated accelerator that shares
//! memory with the processor. Every other host is asked for its discrete
//! accelerators.

use vstd::prelude::*;
use vstd::string::StringExecFns;

verus! {

/// The accelerator backend of a host.
#[derive(Clone, Copy, Debug, PartialEq, Eq, Structural)]
pub enum AcceleratorBackend {
    /// One implicit device that shares memory with the processor; nothing
    /// is enumerated.
    IntegratedUnified,
    /// Devices with memory of their own, enumerated and addressed by index.
    Discrete,
}

/// Whether architecture and operating system name a host with an
/// integrated unified-memory accelerator.
pub open spec fn is_unified_platform(arch: Option<Seq<char>>, os: Seq<char>) -> bool {
    arch == Some("arm64"@) && os == "macos"@
}

/// The backend of a host with the given architecture and operating system.
pub open spec fn backend_of(arch: Option<Seq<char>>, os: Seq<char>) -> AcceleratorBackend {
    if is_unified_platform(arch, os) {
        AcceleratorBackend::IntegratedUnified
    } else {
        AcceleratorBackend::Discrete
    }
}

/// Decides the accelerator backend from the host's architecture, where it
/// is known, and its operating system identifier.
pub fn detect_backend(arch: &Option<String>, os: &String) -> (backend: AcceleratorBackend)
    ensures
        backend == backend_of(arch.deep_view(), os@),
{
    let unified_os = String::from_str("macos");
    let unified_arch = String::from_str("arm64");
    match arch {
        Some(name) => {
            if *name == unified_arch && *os == unified_os {
                AcceleratorBackend::IntegratedUnified
            } else {
                AcceleratorBackend::Discrete
            }
        },
        None => AcceleratorBackend::Discrete,
    }
}

} // verus!
