use vstd::prelude::*;

verus! {

/// The ways in which work on the compute device can fail. None of them is
/// retried by the library: each is handed to the caller as it is.
#[derive(Clone, Copy, Debug, PartialEq, Eq, Structural)]
pub enum ClError {
    /// No compute device was found, or its command queue could not be made.
    DeviceUnavailable,
    /// A kernel's source did not compile on the device.
    ProgramCompileError,
    /// The device could not hold an image, or the copy to it failed.
    AllocationFailure,
    /// The queue rejected a dispatch.
    DispatchFailure,
    /// A filter was run before any kernel was bound to it.
    PrecallOrderViolation,
}

/// The steps of the device protocol at which the device can refuse.
#[derive(Clone, Copy, Debug, PartialEq, Eq, Structural)]
pub enum DeviceStep {
    /// Finding a device and making its command queue.
    ContextCreation,
    /// Compiling a filter's program.
    ProgramBuild,
    /// Making an image on the device and copying the pixels to it.
    ImageUpload,
    /// Enqueueing a bound kernel.
    Enqueue,
}

impl ClError {
    /// The failure that a refusal of the device at `step` is reported as.
    pub open spec fn spec_at(step: DeviceStep) -> ClError {
        match step {
            DeviceStep::ContextCreation => ClError::DeviceUnavailable,
            DeviceStep::ProgramBuild => ClError::ProgramCompileError,
            DeviceStep::ImageUpload => ClError::AllocationFailure,
            DeviceStep::Enqueue => ClError::DispatchFailure,
        }
    }

    /// The failure that a refusal of the device at `step` is reported as.
    pub fn at(step: DeviceStep) -> (e: ClError)
        ensures
            e == ClError::spec_at(step),
    {
        match step {
            DeviceStep::ContextCreation => ClError::DeviceUnavailable,
            DeviceStep::ProgramBuild => ClError::ProgramCompileError,
            DeviceStep::ImageUpload => ClError::AllocationFailure,
            DeviceStep::Enqueue => ClError::DispatchFailure,
        }
    }

    /// Whether the caller can go on after this failure: only a failed
    /// allocation leaves that open, by releasing other images and trying
    /// again.
    pub fn is_recoverable(self) -> (r: bool)
        ensures
            r == (self == ClError::AllocationFailure),
    {
        match self {
            ClError::AllocationFailure => true,
            _ => false,
        }
    }
}

} // verus!
