use vstd::prelude::*;

verus! {

/// Status of a boot attempt that failed before the environment exit.
///
/// Every pre-exit failure aborts the whole attempt and is reported to the
/// firmware as one of these discriminated values; there is no cause chain,
/// since each stage either fully succeeds or aborts the sequence.
#[derive(Clone, Copy, Debug, PartialEq, Eq, Structural)]
pub enum BootStatus {
    /// A device-level failure: no usable display, or a failed volume read.
    DeviceError,
    /// The kernel file (or a protocol needed to reach it) was not found.
    NotFound,
    /// The kernel file is empty, malformed, or out of bounds.
    InvalidParameter,
    /// A page or pool allocation failed.
    OutOfResources,
    /// A caller-supplied buffer was too small for the firmware's answer.
    BufferTooSmall,
}

} // verus!
