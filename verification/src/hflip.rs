use crate::buffer::{AccessMode, ClImageBuffer};
use crate::context::ClContext;
use crate::error::ClError;
use crate::imageproc::{bind, Dispatch, ImageProc, KernelArg, KernelKind};
use crate::kernels::{apply_point_kernel, lemma_same_pixels, PointKernel};
use vstd::prelude::*;

verus! {

/// The horizontal flip: the pixel read at `(x, y)` is written at
/// `(width - 1 - x, y)`.
#[derive(Debug)]
pub struct HFlip<'a> {
    context: &'a ClContext,
    kernel: Option<Dispatch>,
}

/// `dst` is `src` flipped horizontally: it has the dimensions of `src`, and
/// its pixel at `(x, y)` is the one that `src` has in the mirrored column,
/// at `(width - 1 - x, y)`.
pub open spec fn is_hflip(src: &ClImageBuffer, dst: &ClImageBuffer) -> bool {
    &&& dst.wf()
    &&& dst.spec_dimensions() == src.spec_dimensions()
    &&& forall|x: int, y: int|
        src.contains(x, y) ==> #[trigger] dst.pixel(x, y) == src.pixel(src.width() - 1 - x, y)
}

/// Where the kernel writes the pixel it read at `(x, y)` of an image of
/// width `w`.
pub open spec fn spec_hflip_target(x: int, y: int, w: int) -> (int, int) {
    (w - 1 - x, y)
}

/// Read as the kernel works: the pixel read at `(x, y)` of the source stands
/// at its target in the destination.
pub proof fn lemma_hflip_scatter(src: &ClImageBuffer, dst: &ClImageBuffer, x: int, y: int)
    requires
        is_hflip(src, dst),
        src.contains(x, y),
    ensures
        ({
            let target = spec_hflip_target(x, y, src.width());
            src.contains(target.0, target.1) && dst.pixel(target.0, target.1) == src.pixel(x, y)
        }),
{
    let w = src.width();
    assert(src.contains(w - 1 - x, y));
    assert(dst.pixel(w - 1 - x, y) == src.pixel(w - 1 - (w - 1 - x), y));
}

/// No two work-items write the same coordinate: the targets of two
/// coordinates are the same only if the coordinates are.
pub proof fn lemma_hflip_target_injective(x1: int, y1: int, x2: int, y2: int, w: int)
    requires
        spec_hflip_target(x1, y1, w) == spec_hflip_target(x2, y2, w),
    ensures
        x1 == x2,
        y1 == y2,
{
}

/// Flipping an image horizontally twice gives the image back.
pub proof fn lemma_hflip_involution(a: &ClImageBuffer, b: &ClImageBuffer, c: &ClImageBuffer)
    requires
        a.wf(),
        is_hflip(a, b),
        is_hflip(b, c),
    ensures
        c.spec_dimensions() == a.spec_dimensions(),
        c.pixels() == a.pixels(),
{
    let w = a.width();
    assert forall|x: int, y: int| a.contains(x, y) implies #[trigger] a.pixel(x, y) == c.pixel(
        x,
        y,
    ) by {
        assert(b.contains(w - 1 - x, y));
        assert(c.pixel(x, y) == b.pixel(w - 1 - x, y));
        assert(b.pixel(w - 1 - x, y) == a.pixel(w - 1 - (w - 1 - x), y));
    }
    lemma_same_pixels(a, c);
}

impl<'a> HFlip<'a> {
    /// The context the filter was made in.
    pub closed spec fn spec_context(&self) -> ClContext {
        *self.context
    }

    /// The context the filter was made in.
    pub fn context(&self) -> (c: &'a ClContext)
        ensures
            *c == self.spec_context(),
    {
        self.context
    }

    /// A filter with no kernel bound yet.
    pub fn new(context: &'a ClContext) -> (f: HFlip<'a>)
        ensures
            f.bound() is None,
            f.spec_context() == *context,
    {
        HFlip { context, kernel: None }
    }

    /// What the kernel leaves in a destination of the source's dimensions.
    pub fn apply(src: &ClImageBuffer<'a>) -> (dst: ClImageBuffer<'a>)
        requires
            src.wf(),
        ensures
            is_hflip(src, &dst),
            dst.spec_mode() == AccessMode::Destination,
            dst.spec_context() == src.spec_context(),
    {
        apply_point_kernel(PointKernel::HorizontalFlip, src)
    }
}

impl<'a> ImageProc for HFlip<'a> {
    closed spec fn bound(&self) -> Option<Dispatch> {
        self.kernel
    }

    open spec fn kind(&self) -> KernelKind {
        KernelKind::HorizontalFlip
    }

    open spec fn tail_args(&self) -> Seq<KernelArg> {
        Seq::empty()
    }

    fn build_kernel(&mut self, src_img: &ClImageBuffer, dst_img: &mut ClImageBuffer) -> (bound:
        &mut Self)
        ensures
            bound.spec_context() == old(self).spec_context(),
    {
        let tail: Vec<KernelArg> = Vec::new();
        let d = bind(KernelKind::HorizontalFlip, src_img.dimensions(), dst_img.dimensions(), tail);
        self.kernel = Some(d);
        self
    }

    fn run(&self) -> (r: Result<&Dispatch, ClError>) {
        match &self.kernel {
            Some(d) => Ok(d),
            None => Err(ClError::PrecallOrderViolation),
        }
    }
}

} // verus!
