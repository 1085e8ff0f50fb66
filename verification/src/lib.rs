//! Image filters for a compute device: the host-side rules of the device
//! protocol (context, image buffers, bind-then-dispatch filters), the layout
//! of the spatial weight tables, and the exact per-pixel meaning of the
//! kernels that can be stated over integers.

pub mod bilateral_filter;
pub mod buffer;
pub mod context;
pub mod error;
pub mod gaussian_blur;
pub mod gray;
pub mod hflip;
pub mod imageproc;
pub mod kernels;
pub mod vflip;
pub mod weights;

pub use bilateral_filter::BilateralFilter;
pub use buffer::{pack_rgba8, unpack_rgba8, AccessMode, ClImageBuffer, Rgba8};
pub use context::ClContext;
pub use error::{ClError, DeviceStep};
pub use gaussian_blur::GaussianBlur;
pub use gray::Gray;
pub use hflip::HFlip;
pub use imageproc::{Dispatch, ImageProc, KernelArg, KernelKind};
pub use vflip::VFlip;
