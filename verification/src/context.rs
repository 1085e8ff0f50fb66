use crate::error::ClError;
use vstd::prelude::*;

verus! {

/// A compute context: one device, chosen once, and its single in-order
/// command queue. A context is never re-targeted after creation.
#[derive(Debug)]
pub struct ClContext {
    device: usize,
}

impl ClContext {
    /// The position, among the devices that were found, of the device this
    /// context is bound to.
    pub closed spec fn spec_device(&self) -> usize {
        self.device
    }

    /// Binds a context to the first of `device_count` devices. `queue_ready`
    /// says whether a command queue could be made on that device.
    ///
    /// Succeeds exactly when there is a device and its queue is ready; every
    /// failure is `DeviceUnavailable`.
    pub fn create(device_count: usize, queue_ready: bool) -> (r: Result<ClContext, ClError>)
        ensures
            r is Ok <==> (device_count > 0 && queue_ready),
            r is Ok ==> r->Ok_0.spec_device() == 0,
            r is Err ==> r->Err_0 == ClError::DeviceUnavailable,
    {
        if device_count == 0 || !queue_ready {
            Err(ClError::DeviceUnavailable)
        } else {
            Ok(ClContext { device: 0 })
        }
    }

    /// The position of the bound device among those found.
    pub fn device_index(&self) -> (i: usize)
        ensures
            i == self.spec_device(),
    {
        self.device
    }
}

} // verus!
