use vstd::prelude::*;

verus! {

/// Every failure that the boot core can report. All of them are fatal to the
/// caller, which halts the machine after logging.
#[derive(Clone, Copy, Debug, PartialEq, Eq, Structural)]
pub enum BootError {
    /// The interrupt controller reports a version or feature out of range.
    UnsupportedHardware,
    /// A misaligned or out-of-range startup vector, or a destination id too
    /// wide for the legacy controller.
    InvalidArgument,
    /// A register access could not be performed through the secure channel.
    ChannelFailure,
    /// A memory range was rejected while validating guest memory.
    ValidationFailure,
    /// The boot allocator is exhausted.
    AllocationFailure,
}

} // verus!
