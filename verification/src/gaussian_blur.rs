use crate::buffer::{ClImageBuffer, Rgba8};
use crate::context::ClContext;
use crate::error::ClError;
use crate::imageproc::{bind, Dispatch, ImageProc, KernelArg, KernelKind};
use crate::kernels::{gather_window, spec_neighbor, spec_sample, window_at};
use crate::weights::{
    exponent_divisor, in_window, is_distance_table, lemma_weight_index_in_table,
    spec_weight_size, squared_distances, MAX_SIGMA,
};
use vstd::prelude::*;

verus! {

/// The Gaussian blur of radius `sigma`: every pixel becomes the weighted sum
/// of its window, the weight of the offset `(i, j)` being the exponential of
/// minus its squared distance over `2 * sigma * sigma`, divided by the sum of
/// all the window's weights. Reads outside the image give transparent black.
#[derive(Debug)]
pub struct GaussianBlur<'a> {
    context: &'a ClContext,
    kernel: Option<Dispatch>,
    distances: Vec<u32>,
    sigma: i32,
}

impl<'a> GaussianBlur<'a> {
    /// The context the filter was made in.
    pub closed spec fn spec_context(&self) -> ClContext {
        *self.context
    }

    /// The context the filter was made in.
    pub fn context(&self) -> (c: &'a ClContext)
        ensures
            *c == self.spec_context(),
    {
        self.context
    }

    /// The window's radius.
    pub closed spec fn spec_sigma(&self) -> i32 {
        self.sigma
    }

    /// The squared distance of every offset of the window, flattened as the
    /// weight table is.
    pub closed spec fn spec_distances(&self) -> Seq<u32> {
        self.distances@
    }

    /// The radius is in range and the table holds the squared distance of
    /// every offset of the window, each at its position.
    pub open spec fn wf(&self) -> bool {
        &&& 1 <= self.spec_sigma() <= MAX_SIGMA
        &&& is_distance_table(self.spec_distances(), self.spec_sigma() as int)
    }

    /// A filter of radius `sigma` with its table laid out and no kernel bound
    /// yet.
    pub fn new(context: &'a ClContext, sigma: i32) -> (f: GaussianBlur<'a>)
        requires
            1 <= sigma <= MAX_SIGMA,
        ensures
            f.wf(),
            f.spec_sigma() == sigma,
            f.bound() is None,
            f.spec_context() == *context,
    {
        GaussianBlur { context, kernel: None, distances: squared_distances(sigma), sigma }
    }

    /// The window's radius.
    pub fn sigma(&self) -> (s: i32)
        ensures
            s == self.spec_sigma(),
    {
        self.sigma
    }

    /// The table of squared distances.
    pub fn distances(&self) -> (t: &Vec<u32>)
        ensures
            t@ == self.spec_distances(),
    {
        &self.distances
    }

    /// What the kernel reads around `(x, y)`: the sample at every offset of
    /// the window, flattened as the weight table is. Offsets that land
    /// outside the image read transparent black, so the blur darkens toward
    /// the border.
    pub fn window(&self, src: &ClImageBuffer, x: u32, y: u32) -> (samples: Vec<Rgba8>)
        requires
            self.wf(),
            src.wf(),
        ensures
            samples@.len() == spec_weight_size(self.spec_sigma() as int),
            forall|i: int, j: int|
                in_window(i, j, self.spec_sigma() as int) ==> #[trigger] window_at(
                    samples@,
                    i,
                    j,
                    self.spec_sigma() as int,
                ) == spec_sample(src, x + i, y + j),
    {
        let found = gather_window(src, x, y, self.sigma);
        let mut samples: Vec<Rgba8> = Vec::new();
        let mut k: usize = 0;
        while k < found.len()
            invariant
                k <= found@.len(),
                samples@.len() == k,
                forall|n: int|
                    0 <= n < k ==> samples@[n] == (match #[trigger] found@[n] {
                        Some(p) => p,
                        None => Rgba8 { r: 0, g: 0, b: 0, a: 0 },
                    }),
            decreases found@.len() - k,
        {
            let p = match found[k] {
                Some(p) => p,
                None => Rgba8 { r: 0, g: 0, b: 0, a: 0 },
            };
            samples.push(p);
            k += 1;
        }
        proof {
            let sigma = self.spec_sigma() as int;
            assert forall|i: int, j: int| in_window(i, j, sigma) implies #[trigger] window_at(
                samples@,
                i,
                j,
                sigma,
            ) == spec_sample(src, x + i, y + j) by {
                lemma_weight_index_in_table(i, j, sigma);
                assert(window_at(found@, i, j, sigma) == spec_neighbor(src, x + i, y + j));
            }
        }
        samples
    }

    /// The divisor of every weight's exponent: `2 * sigma * sigma`.
    pub fn divisor(&self) -> (d: u32)
        requires
            self.wf(),
        ensures
            d == 2 * (self.spec_sigma() * self.spec_sigma()),
            d > 0,
    {
        exponent_divisor(self.sigma)
    }
}

impl<'a> ImageProc for GaussianBlur<'a> {
    closed spec fn bound(&self) -> Option<Dispatch> {
        self.kernel
    }

    open spec fn kind(&self) -> KernelKind {
        KernelKind::GaussianBlur
    }

    open spec fn tail_args(&self) -> Seq<KernelArg> {
        seq![
            KernelArg::Weights { len: self.spec_distances().len() as usize },
            KernelArg::Scalar { value: self.spec_sigma() },
        ]
    }

    fn build_kernel(&mut self, src_img: &ClImageBuffer, dst_img: &mut ClImageBuffer) -> (bound:
        &mut Self)
        ensures
            bound.spec_context() == old(self).spec_context(),
            bound.spec_sigma() == old(self).spec_sigma(),
            bound.spec_distances() == old(self).spec_distances(),
    {
        let mut tail: Vec<KernelArg> = Vec::new();
        tail.push(KernelArg::Weights { len: self.distances.len() });
        tail.push(KernelArg::Scalar { value: self.sigma });
        assert(tail@ =~= self.tail_args());
        let d = bind(KernelKind::GaussianBlur, src_img.dimensions(), dst_img.dimensions(), tail);
        self.kernel = Some(d);
        self
    }

    fn run(&self) -> (r: Result<&Dispatch, ClError>) {
        match &self.kernel {
            Some(d) => Ok(d),
            None => Err(ClError::PrecallOrderViolation),
        }
    }
}

} // verus!
