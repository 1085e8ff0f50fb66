use crate::buffer::{ClImageBuffer, Rgba8};
use crate::context::ClContext;
use crate::error::ClError;
use crate::imageproc::{bind, Dispatch, ImageProc, KernelArg, KernelKind};
use crate::kernels::{gather_window, spec_neighbor, window_at};
use crate::weights::{
    exponent_divisor, in_window, is_distance_table, spec_weight_size, squared_distances,
    MAX_SIGMA,
};
use vstd::prelude::*;

verus! {

/// The bilateral filter: a blur over the window of radius `sigma_space` that
/// skips offsets outside the image and weighs every neighbour by its spatial
/// weight times a term of its color distance from the centre, scaled by
/// `sigma_color`. The spatial weight of the offset `(i, j)` is the
/// exponential of minus its squared distance over
/// `2 * sigma_space * sigma_space`; the device divides by the total weight,
/// since the color term is known only there.
#[derive(Debug)]
pub struct BilateralFilter<'a> {
    context: &'a ClContext,
    kernel: Option<Dispatch>,
    distances: Vec<u32>,
    sigma_color: i32,
    sigma_space: i32,
}

impl<'a> BilateralFilter<'a> {
    /// The context the filter was made in.
    pub closed spec fn spec_context(&self) -> ClContext {
        *self.context
    }

    /// The context the filter was made in.
    pub fn context(&self) -> (c: &'a ClContext)
        ensures
            *c == self.spec_context(),
    {
        self.context
    }

    /// The scale of the color term.
    pub closed spec fn spec_sigma_color(&self) -> i32 {
        self.sigma_color
    }

    /// The window's radius.
    pub closed spec fn spec_sigma_space(&self) -> i32 {
        self.sigma_space
    }

    /// The squared distance of every offset of the window, flattened as the
    /// weight table is.
    pub closed spec fn spec_distances(&self) -> Seq<u32> {
        self.distances@
    }

    /// Both parameters are in range and the table holds the squared distance
    /// of every offset of the window, each at its position.
    pub open spec fn wf(&self) -> bool {
        &&& 1 <= self.spec_sigma_color()
        &&& 1 <= self.spec_sigma_space() <= MAX_SIGMA
        &&& is_distance_table(self.spec_distances(), self.spec_sigma_space() as int)
    }

    /// A filter with its spatial table laid out and no kernel bound yet.
    pub fn new(context: &'a ClContext, sigma_color: i32, sigma_space: i32) -> (f: BilateralFilter<'a>)
        requires
            1 <= sigma_color,
            1 <= sigma_space <= MAX_SIGMA,
        ensures
            f.wf(),
            f.spec_sigma_color() == sigma_color,
            f.spec_sigma_space() == sigma_space,
            f.bound() is None,
            f.spec_context() == *context,
    {
        BilateralFilter {
            context,
            kernel: None,
            distances: squared_distances(sigma_space),
            sigma_color,
            sigma_space,
        }
    }

    /// The scale of the color term.
    pub fn sigma_color(&self) -> (s: i32)
        ensures
            s == self.spec_sigma_color(),
    {
        self.sigma_color
    }

    /// The window's radius.
    pub fn sigma_space(&self) -> (s: i32)
        ensures
            s == self.spec_sigma_space(),
    {
        self.sigma_space
    }

    /// The table of squared distances.
    pub fn distances(&self) -> (t: &Vec<u32>)
        ensures
            t@ == self.spec_distances(),
    {
        &self.distances
    }

    /// The divisor of the color term's exponent:
    /// `2 * sigma_color * sigma_color`.
    pub fn color_divisor(&self) -> (d: u64)
        requires
            self.wf(),
        ensures
            d == 2 * (self.spec_sigma_color() * self.spec_sigma_color()),
            d > 0,
    {
        let s: u64 = self.sigma_color as u64;
        assert(1 <= s * s <= 0x7FFF_FFFF * 0x7FFF_FFFF) by (nonlinear_arith)
            requires
                1 <= s <= 0x7FFF_FFFF,
        ;
        2 * (s * s)
    }

    /// What the kernel reads around `(x, y)`: for every offset of the window
    /// the pixel it lands on, flattened as the weight table is, and nothing
    /// for an offset that lands outside the image: such an offset is skipped
    /// and adds to neither the sum nor the total weight.
    pub fn window(&self, src: &ClImageBuffer, x: u32, y: u32) -> (found: Vec<Option<Rgba8>>)
        requires
            self.wf(),
            src.wf(),
        ensures
            found@.len() == spec_weight_size(self.spec_sigma_space() as int),
            forall|i: int, j: int|
                in_window(i, j, self.spec_sigma_space() as int) ==> #[trigger] window_at(
                    found@,
                    i,
                    j,
                    self.spec_sigma_space() as int,
                ) == spec_neighbor(src, x + i, y + j),
    {
        gather_window(src, x, y, self.sigma_space)
    }

    /// The divisor of every spatial weight's exponent:
    /// `2 * sigma_space * sigma_space`.
    pub fn divisor(&self) -> (d: u32)
        requires
            self.wf(),
        ensures
            d == 2 * (self.spec_sigma_space() * self.spec_sigma_space()),
            d > 0,
    {
        exponent_divisor(self.sigma_space)
    }
}

impl<'a> ImageProc for BilateralFilter<'a> {
    closed spec fn bound(&self) -> Option<Dispatch> {
        self.kernel
    }

    open spec fn kind(&self) -> KernelKind {
        KernelKind::BilateralFilter
    }

    open spec fn tail_args(&self) -> Seq<KernelArg> {
        seq![
            KernelArg::Weights { len: self.spec_distances().len() as usize },
            KernelArg::Scalar { value: self.spec_sigma_color() },
            KernelArg::Scalar { value: self.spec_sigma_space() },
        ]
    }

    fn build_kernel(&mut self, src_img: &ClImageBuffer, dst_img: &mut ClImageBuffer) -> (bound:
        &mut Self)
        ensures
            bound.spec_context() == old(self).spec_context(),
            bound.spec_sigma_color() == old(self).spec_sigma_color(),
            bound.spec_sigma_space() == old(self).spec_sigma_space(),
            bound.spec_distances() == old(self).spec_distances(),
    {
        let mut tail: Vec<KernelArg> = Vec::new();
        tail.push(KernelArg::Weights { len: self.distances.len() });
        tail.push(KernelArg::Scalar { value: self.sigma_color });
        tail.push(KernelArg::Scalar { value: self.sigma_space });
        assert(tail@ =~= self.tail_args());
        let d = bind(KernelKind::BilateralFilter, src_img.dimensions(), dst_img.dimensions(), tail);
        self.kernel = Some(d);
        self
    }

    fn run(&self) -> (r: Result<&Dispatch, ClError>) {
        match &self.kernel {
            Some(d) => Ok(d),
            None => Err(ClError::PrecallOrderViolation),
        }
    }
}

} // verus!
