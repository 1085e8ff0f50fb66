use crate::buffer::ClImageBuffer;
use crate::error::ClError;
use vstd::prelude::*;

verus! {

/// The kernels of the library, one for each filter.
#[derive(Clone, Copy, Debug, PartialEq, Eq, Structural)]
pub enum KernelKind {
    Grayscale,
    HorizontalFlip,
    VerticalFlip,
    GaussianBlur,
    BilateralFilter,
}

impl KernelKind {
    /// The name of the kernel's entry point in its device program.
    pub open spec fn spec_name(self) -> Seq<char> {
        match self {
            KernelKind::Grayscale => "grayscale"@,
            KernelKind::HorizontalFlip => "hflip"@,
            KernelKind::VerticalFlip => "vflip"@,
            KernelKind::GaussianBlur => "gaussian_blur"@,
            KernelKind::BilateralFilter => "bilateral_filter"@,
        }
    }

    /// The name of the kernel's entry point in its device program.
    pub fn name(self) -> (s: &'static str)
        ensures
            s@ == self.spec_name(),
    {
        match self {
            KernelKind::Grayscale => "grayscale",
            KernelKind::HorizontalFlip => "hflip",
            KernelKind::VerticalFlip => "vflip",
            KernelKind::GaussianBlur => "gaussian_blur",
            KernelKind::BilateralFilter => "bilateral_filter",
        }
    }
}

/// One argument of a kernel, as it is bound.
#[derive(Clone, Copy, Debug, PartialEq, Eq, Structural)]
pub enum KernelArg {
    /// The image the kernel reads, with its dimensions.
    SourceImage { width: u32, height: u32 },
    /// The image the kernel writes, with its dimensions.
    DestinationImage { width: u32, height: u32 },
    /// The filter's weight table, with its number of entries.
    Weights { len: usize },
    /// An integer parameter of the filter.
    Scalar { value: i32 },
}

/// A kernel with its arguments bound, ready to be enqueued: one work-item
/// for each coordinate of `extent`.
#[derive(Debug)]
pub struct Dispatch {
    pub kind: KernelKind,
    pub extent: (u32, u32),
    pub args: Vec<KernelArg>,
}

/// The arguments of a dispatch, in binding order: the source image, the
/// destination image, then the filter's own.
pub open spec fn bound_args(src: (u32, u32), dst: (u32, u32), tail: Seq<KernelArg>) -> Seq<
    KernelArg,
> {
    seq![
        KernelArg::SourceImage { width: src.0, height: src.1 },
        KernelArg::DestinationImage { width: dst.0, height: dst.1 },
    ] + tail
}

/// `d` is the dispatch of the kernel `kind` from an image of dimensions `src`
/// into one of dimensions `dst`, with the filter's own arguments `tail`.
pub open spec fn is_binding(
    d: &Dispatch,
    kind: KernelKind,
    src: (u32, u32),
    dst: (u32, u32),
    tail: Seq<KernelArg>,
) -> bool {
    &&& d.kind == kind
    &&& d.extent == src
    &&& d.args@ == bound_args(src, dst, tail)
}

/// A binding never resizes: where the destination was made with the
/// dimensions of the source, the dispatch has one work-item for each
/// coordinate of the destination, and the destination is bound with the
/// dimensions of the source.
pub proof fn lemma_binding_keeps_dimensions(
    d: &Dispatch,
    kind: KernelKind,
    src: (u32, u32),
    dst: (u32, u32),
    tail: Seq<KernelArg>,
)
    requires
        is_binding(d, kind, src, dst, tail),
        dst == src,
    ensures
        d.extent == dst,
        d.args@[0] == (KernelArg::SourceImage { width: src.0, height: src.1 }),
        d.args@[1] == (KernelArg::DestinationImage { width: src.0, height: src.1 }),
        d.args@.len() == 2 + tail.len(),
        forall|k: int| 0 <= k < tail.len() ==> d.args@[2 + k] == tail[k],
{
}

/// Binds the kernel `kind`: its extent is that of the source, whatever the
/// destination's dimensions are.
pub fn bind(kind: KernelKind, src: (u32, u32), dst: (u32, u32), tail: Vec<KernelArg>) -> (d:
    Dispatch)
    ensures
        is_binding(&d, kind, src, dst, tail@),
{
    let mut args: Vec<KernelArg> = Vec::new();
    args.push(KernelArg::SourceImage { width: src.0, height: src.1 });
    args.push(KernelArg::DestinationImage { width: dst.0, height: dst.1 });
    let mut i: usize = 0;
    while i < tail.len()
        invariant
            i <= tail@.len(),
            args@ == bound_args(src, dst, tail@.subrange(0, i as int)),
        decreases tail@.len() - i,
    {
        args.push(tail[i]);
        i += 1;
        assert(args@ =~= bound_args(src, dst, tail@.subrange(0, i as int)));
    }
    assert(tail@.subrange(0, i as int) =~= tail@);
    Dispatch { kind, extent: src, args }
}

/// What every filter offers: bind its kernel to a source and a destination,
/// then hand out the bound dispatch as often as it is to be run.
pub trait ImageProc: Sized {
    /// The dispatch that is bound, if any.
    spec fn bound(&self) -> Option<Dispatch>;

    /// The filter's kernel.
    spec fn kind(&self) -> KernelKind;

    /// The filter's own arguments, which follow the two images.
    spec fn tail_args(&self) -> Seq<KernelArg>;

    /// Binds the filter's kernel to `src_img` and `dst_img`, in place of any
    /// earlier binding. Neither image changes, and nothing is asked of their
    /// dimensions.
    fn build_kernel(&mut self, src_img: &ClImageBuffer, dst_img: &mut ClImageBuffer) -> (bound:
        &mut Self)
        ensures
            *final(self) == *final(bound),
            bound.kind() == old(self).kind(),
            bound.tail_args() == old(self).tail_args(),
            bound.bound() is Some,
            is_binding(
                &bound.bound()->Some_0,
                old(self).kind(),
                src_img.spec_dimensions(),
                old(dst_img).spec_dimensions(),
                old(self).tail_args(),
            ),
            *final(dst_img) == *old(dst_img),
    ;

    /// The bound dispatch, for the queue. Before the first binding there is
    /// none, and the call fails with `PrecallOrderViolation`.
    fn run(&self) -> (r: Result<&Dispatch, ClError>)
        ensures
            r is Ok <==> self.bound() is Some,
            r is Ok ==> Some(*r->Ok_0) == self.bound(),
            r is Err ==> r->Err_0 == ClError::PrecallOrderViolation,
    ;
}

} // verus!
