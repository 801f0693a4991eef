//! Error taxonomy of the client core.
//!
//! Every failure surfaces to the caller; nothing is swallowed. Kernel
//! error numbers are carried as plain `i32` values so that contracts can
//! speak about them directly.

use vstd::prelude::*;

verus! {

/// Why an operation against the hypervisor failed.
#[derive(Debug, Clone, Copy, PartialEq, Eq)]
pub enum Error {
    /// The privileged command device could not be opened.
    DeviceOpenFailed,
    /// No domain-control interface version in the supported range was
    /// accepted by the running hypervisor.
    VersionUnsupported,
    /// A hypercall returned a kernel error that is not handled by a
    /// retry protocol; the payload is the errno value.
    HypercallFailed(i32),
    /// Reserving a host window or filling it with a batch mapping
    /// returned the failure sentinel.
    MmapFailed,
    /// A batched foreign mapping returned an errno other than the
    /// retryable paging error.
    MmapBatchFailed(i32),
    /// A populate-physmap multicall entry reported a negative or
    /// impossible extent count.
    PopulatePhysmapFailed,
    /// Releasing a host window returned a non-zero errno.
    UnmapFailed(i32),
    /// A page-frame range was inconsistent with every live window, or a
    /// translation-only lookup missed.
    MemorySetupFailed(&'static str),
    /// The serialization permit subsystem terminated.
    PermitAcquireFailed,
}

} // verus!
