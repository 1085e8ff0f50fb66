use crate::buffer::{AccessMode, ClImageBuffer};
use crate::context::ClContext;
use crate::error::ClError;
use crate::imageproc::{bind, Dispatch, ImageProc, KernelArg, KernelKind};
use crate::kernels::{apply_point_kernel, spec_gray, PointKernel};
use vstd::prelude::*;

verus! {

/// The grayscale filter: every pixel gets its luma on the three color
/// channels and keeps its alpha.
#[derive(Debug)]
pub struct Gray<'a> {
    context: &'a ClContext,
    kernel: Option<Dispatch>,
}

impl<'a> Gray<'a> {
    /// The context the filter was made in.
    pub closed spec fn spec_context(&self) -> ClContext {
        *self.context
    }

    /// The context the filter was made in.
    pub fn context(&self) -> (c: &'a ClContext)
        ensures
            *c == self.spec_context(),
    {
        self.context
    }

    /// A filter with no kernel bound yet.
    pub fn new(context: &'a ClContext) -> (f: Gray<'a>)
        ensures
            f.bound() is None,
            f.spec_context() == *context,
    {
        Gray { context, kernel: None }
    }

    /// What the kernel leaves in a destination of the source's dimensions.
    pub fn apply(src: &ClImageBuffer<'a>) -> (dst: ClImageBuffer<'a>)
        requires
            src.wf(),
        ensures
            dst.wf(),
            dst.spec_dimensions() == src.spec_dimensions(),
            dst.spec_mode() == AccessMode::Destination,
            dst.spec_context() == src.spec_context(),
            forall|x: int, y: int|
                src.contains(x, y) ==> #[trigger] dst.pixel(x, y) == spec_gray(src.pixel(x, y)),
    {
        apply_point_kernel(PointKernel::Grayscale, src)
    }
}

impl<'a> ImageProc for Gray<'a> {
    closed spec fn bound(&self) -> Option<Dispatch> {
        self.kernel
    }

    open spec fn kind(&self) -> KernelKind {
        KernelKind::Grayscale
    }

    open spec fn tail_args(&self) -> Seq<KernelArg> {
        Seq::empty()
    }

    fn build_kernel(&mut self, src_img: &ClImageBuffer, dst_img: &mut ClImageBuffer) -> (bound:
        &mut Self)
        ensures
            bound.spec_context() == old(self).spec_context(),
    {
        let tail: Vec<KernelArg> = Vec::new();
        let d = bind(KernelKind::Grayscale, src_img.dimensions(), dst_img.dimensions(), tail);
        self.kernel = Some(d);
        self
    }

    fn run(&self) -> (r: Result<&Dispatch, ClError>) {
        match &self.kernel {
            Some(d) => Ok(d),
            None => Err(ClError::PrecallOrderViolation),
        }
    }
}

} // verus!
