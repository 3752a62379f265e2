//! Diagnostics that the validation layer reports, and the lines of the
//! program's output.

use vstd::prelude::*;

verus! {

/// What a validation diagnostic reports.
#[derive(Clone, Copy, Debug, PartialEq, Eq, Structural)]
pub enum DiagnosticKind {
    /// A bind group referenced a resource owned by a device other than the
    /// one the group was built on.
    CrossDeviceResource,
    /// A destroyed resource was not allocated by the allocator of the
    /// device whose bind group still references it.
    ForeignAllocator,
}

/// A diagnostic as it reaches an error callback: the identity of the device
/// whose callback receives it, and what it reports.
#[derive(Clone, Copy, Debug, PartialEq, Eq, Structural)]
pub struct Diagnostic {
    /// The device whose uncaptured-error callback receives the report.
    pub device: u64,
    /// What the report says.
    pub kind: DiagnosticKind,
}

/// One line of the program's output: a diagnostic printed by a device's
/// callback, or the separator printed between the two checks.
#[derive(Clone, Copy, Debug, PartialEq, Eq, Structural)]
pub enum Line {
    /// A device-tagged diagnostic line.
    Diag(Diagnostic),
    /// The literal separator line between the two checks.
    Separator,
}

} // verus!
