use crate::context::ClContext;
use crate::error::ClError;
use vstd::prelude::*;

verus! {

/// One pixel: red, green, blue and alpha, eight bits each.
#[derive(Clone, Copy, Debug, PartialEq, Eq, Structural)]
pub struct Rgba8 {
    pub r: u8,
    pub g: u8,
    pub b: u8,
    pub a: u8,
}

/// How the device uses an image. The mode is advisory: it says how the image
/// is to be bound as a kernel argument, and nothing enforces it at bind time.
#[derive(Clone, Copy, Debug, PartialEq, Eq, Structural)]
pub enum AccessMode {
    /// The device reads the image; the host wrote it before the upload.
    Source,
    /// The device writes the image; the host reads it afterwards.
    Destination,
}

/// OpenCL's memory flag `CL_MEM_WRITE_ONLY`: the device only writes.
pub const MEM_WRITE_ONLY: u64 = 2;

/// OpenCL's memory flag `CL_MEM_READ_ONLY`: the device only reads.
pub const MEM_READ_ONLY: u64 = 4;

/// OpenCL's memory flag `CL_MEM_COPY_HOST_PTR`: the image is filled from host
/// memory when it is made.
pub const MEM_COPY_HOST_PTR: u64 = 32;

/// OpenCL's memory flag `CL_MEM_HOST_WRITE_ONLY`: the host only writes.
pub const MEM_HOST_WRITE_ONLY: u64 = 128;

/// OpenCL's memory flag `CL_MEM_HOST_READ_ONLY`: the host only reads.
pub const MEM_HOST_READ_ONLY: u64 = 256;

impl AccessMode {
    /// The memory flags of an image in this mode, as one bit set.
    pub open spec fn spec_flag_bits(self) -> u64 {
        match self {
            AccessMode::Source => 164,
            AccessMode::Destination => 290,
        }
    }

    /// The memory flags with which an image in this mode is made: what the
    /// device may do, what the host may do, and the copy from host memory.
    pub fn flag_bits(self) -> (bits: u64)
        ensures
            bits == self.spec_flag_bits(),
    {
        match self {
            AccessMode::Source => {
                assert(4u64 | 128u64 | 32u64 == 164u64) by (bit_vector);
                MEM_READ_ONLY | MEM_HOST_WRITE_ONLY | MEM_COPY_HOST_PTR
            },
            AccessMode::Destination => {
                assert(2u64 | 256u64 | 32u64 == 290u64) by (bit_vector);
                MEM_WRITE_ONLY | MEM_HOST_READ_ONLY | MEM_COPY_HOST_PTR
            },
        }
    }
}

/// Channel `c` of a pixel, in the order red, green, blue, alpha.
pub open spec fn channel(p: Rgba8, c: int) -> u8 {
    if c == 0 {
        p.r
    } else if c == 1 {
        p.g
    } else if c == 2 {
        p.b
    } else {
        p.a
    }
}

/// The bytes of a run of pixels: four for each pixel, in channel order.
pub open spec fn spec_pack(pixels: Seq<Rgba8>) -> Seq<u8> {
    Seq::new(4 * pixels.len(), |k: int| channel(pixels[k / 4], k % 4))
}

/// The pixels as bytes, four for each pixel, in channel order.
pub fn pack_rgba8(pixels: &Vec<Rgba8>) -> (bytes: Vec<u8>)
    ensures
        bytes@ == spec_pack(pixels@),
{
    let mut bytes: Vec<u8> = Vec::new();
    let mut i: usize = 0;
    while i < pixels.len()
        invariant
            i <= pixels@.len(),
            bytes@ == spec_pack(pixels@.subrange(0, i as int)),
        decreases pixels@.len() - i,
    {
        let p = pixels[i];
        bytes.push(p.r);
        bytes.push(p.g);
        bytes.push(p.b);
        bytes.push(p.a);
        i += 1;
        assert(bytes@ =~= spec_pack(pixels@.subrange(0, i as int)));
    }
    assert(pixels@.subrange(0, i as int) =~= pixels@);
    bytes
}

/// The pixels that a run of bytes holds, four bytes for each pixel.
///
/// `None` exactly when the number of bytes is no multiple of four.
pub fn unpack_rgba8(bytes: &Vec<u8>) -> (r: Option<Vec<Rgba8>>)
    ensures
        r is Some <==> bytes@.len() % 4 == 0,
        r is Some ==> spec_pack(r->Some_0@) == bytes@,
{
    if bytes.len() % 4 != 0 {
        return None;
    }
    let len: usize = bytes.len();
    let n: usize = len / 4;
    let mut pixels: Vec<Rgba8> = Vec::new();
    let mut i: usize = 0;
    while i < n
        invariant
            bytes@.len() == len,
            len == 4 * n,
            i <= n,
            pixels@.len() == i,
            spec_pack(pixels@) == bytes@.subrange(0, 4 * i),
        decreases n - i,
    {
        let p = Rgba8 {
            r: bytes[4 * i],
            g: bytes[4 * i + 1],
            b: bytes[4 * i + 2],
            a: bytes[4 * i + 3],
        };
        pixels.push(p);
        i += 1;
        assert(spec_pack(pixels@) =~= bytes@.subrange(0, 4 * i));
    }
    assert(bytes@.subrange(0, 4 * i) =~= bytes@);
    Some(pixels)
}

/// Two runs of pixels with the same bytes are the same run.
pub proof fn lemma_pack_injective(a: Seq<Rgba8>, b: Seq<Rgba8>)
    requires
        spec_pack(a) == spec_pack(b),
    ensures
        a == b,
{
    assert(spec_pack(a).len() == 4 * a.len());
    assert(spec_pack(b).len() == 4 * b.len());
    assert forall|k: int| 0 <= k < a.len() implies a[k] == b[k] by {
        assert(spec_pack(a)[4 * k] == a[k].r && spec_pack(b)[4 * k] == b[k].r);
        assert(spec_pack(a)[4 * k + 1] == a[k].g && spec_pack(b)[4 * k + 1] == b[k].g);
        assert(spec_pack(a)[4 * k + 2] == a[k].b && spec_pack(b)[4 * k + 2] == b[k].b);
        assert(spec_pack(a)[4 * k + 3] == a[k].a && spec_pack(b)[4 * k + 3] == b[k].a);
    }
    assert(a =~= b);
}

/// The pixel of a row-major grid of width `w` at column `x` of row `y`.
pub open spec fn cell(grid: Seq<Rgba8>, w: int, x: int, y: int) -> Rgba8 {
    grid[y * w + x]
}

/// A cell inside a `w` by `h` grid has a row-major position inside the grid.
pub proof fn lemma_cell_in_grid(x: int, y: int, w: int, h: int)
    requires
        0 <= x < w,
        0 <= y < h,
    ensures
        0 <= y * w + x < w * h,
{
    assert(0 <= y * w && y * w + w <= h * w && h * w == w * h) by (nonlinear_arith)
        requires
            0 <= y < h,
            0 < w,
    ;
}

/// Cells of earlier rows come before those of later rows.
pub proof fn lemma_row_before(x: int, y: int, w: int, below: int)
    requires
        0 <= x < w,
        0 <= y < below,
    ensures
        0 <= y * w + x < below * w,
{
    assert(0 <= y * w && y * w + w <= below * w) by (nonlinear_arith)
        requires
            0 <= y < below,
            0 < w,
    ;
}

/// An image as the device holds it: a grid of pixels of fixed dimensions,
/// with the mode it was uploaded in. It borrows the context it was made in,
/// so it cannot outlive that context.
#[derive(Debug)]
pub struct ClImageBuffer<'a> {
    context: &'a ClContext,
    data: Vec<Rgba8>,
    dims: (u32, u32),
    mode: AccessMode,
}

impl<'a> ClImageBuffer<'a> {
    /// The context the image was made in.
    pub closed spec fn spec_context(&self) -> ClContext {
        *self.context
    }

    /// The pixels, row after row.
    pub closed spec fn pixels(&self) -> Seq<Rgba8> {
        self.data@
    }

    /// Width and height.
    pub closed spec fn spec_dimensions(&self) -> (u32, u32) {
        self.dims
    }

    /// The mode the image was uploaded in.
    pub closed spec fn spec_mode(&self) -> AccessMode {
        self.mode
    }

    /// Width, as a mathematical integer.
    pub open spec fn width(&self) -> int {
        self.spec_dimensions().0 as int
    }

    /// Height, as a mathematical integer.
    pub open spec fn height(&self) -> int {
        self.spec_dimensions().1 as int
    }

    /// The image holds exactly one pixel for each coordinate.
    pub open spec fn wf(&self) -> bool {
        self.pixels().len() == self.width() * self.height()
    }

    /// The pixel at column `x` of row `y`.
    pub open spec fn pixel(&self, x: int, y: int) -> Rgba8 {
        cell(self.pixels(), self.width(), x, y)
    }

    /// Whether `(x, y)` is a coordinate of the image.
    pub open spec fn contains(&self, x: int, y: int) -> bool {
        0 <= x < self.width() && 0 <= y < self.height()
    }

    /// Uploads `pixels`, `width` by `height` and row after row, as an image of
    /// `context` in the given mode.
    ///
    /// Fails with `AllocationFailure` exactly when `pixels` does not hold one
    /// pixel for each coordinate: such a copy cannot be made.
    pub fn from_host_image(
        context: &'a ClContext,
        width: u32,
        height: u32,
        pixels: Vec<Rgba8>,
        mode: AccessMode,
    ) -> (r: Result<ClImageBuffer<'a>, ClError>)
        ensures
            r is Ok <==> pixels@.len() == width * height,
            r is Err ==> r->Err_0 == ClError::AllocationFailure,
            r is Ok ==> {
                &&& r->Ok_0.wf()
                &&& r->Ok_0.spec_dimensions() == (width, height)
                &&& r->Ok_0.pixels() == pixels@
                &&& r->Ok_0.spec_mode() == mode
                &&& r->Ok_0.spec_context() == *context
            },
    {
        assert(width * height <= 0xFFFF_FFFF * 0xFFFF_FFFF) by (nonlinear_arith)
            requires
                0 <= width <= 0xFFFF_FFFF,
                0 <= height <= 0xFFFF_FFFF,
        ;
        let expected: u64 = (width as u64) * (height as u64);
        if pixels.len() as u64 == expected {
            Ok(ClImageBuffer { context, data: pixels, dims: (width, height), mode })
        } else {
            Err(ClError::AllocationFailure)
        }
    }

    /// Uploads `pixels` as an image that the device reads.
    pub fn from_readonly_host_image(
        context: &'a ClContext,
        width: u32,
        height: u32,
        pixels: Vec<Rgba8>,
    ) -> (r: Result<ClImageBuffer<'a>, ClError>)
        ensures
            r is Ok <==> pixels@.len() == width * height,
            r is Err ==> r->Err_0 == ClError::AllocationFailure,
            r is Ok ==> {
                &&& r->Ok_0.wf()
                &&& r->Ok_0.spec_dimensions() == (width, height)
                &&& r->Ok_0.pixels() == pixels@
                &&& r->Ok_0.spec_mode() == AccessMode::Source
                &&& r->Ok_0.spec_context() == *context
            },
    {
        ClImageBuffer::from_host_image(context, width, height, pixels, AccessMode::Source)
    }

    /// Uploads `pixels` as an image that the device writes.
    pub fn from_writeonly_host_image(
        context: &'a ClContext,
        width: u32,
        height: u32,
        pixels: Vec<Rgba8>,
    ) -> (r: Result<ClImageBuffer<'a>, ClError>)
        ensures
            r is Ok <==> pixels@.len() == width * height,
            r is Err ==> r->Err_0 == ClError::AllocationFailure,
            r is Ok ==> {
                &&& r->Ok_0.wf()
                &&& r->Ok_0.spec_dimensions() == (width, height)
                &&& r->Ok_0.pixels() == pixels@
                &&& r->Ok_0.spec_mode() == AccessMode::Destination
                &&& r->Ok_0.spec_context() == *context
            },
    {
        ClImageBuffer::from_host_image(context, width, height, pixels, AccessMode::Destination)
    }

    /// Makes an image from a grid that is known to fit its dimensions.
    pub(crate) fn assemble(
        context: &'a ClContext,
        width: u32,
        height: u32,
        pixels: Vec<Rgba8>,
        mode: AccessMode,
    ) -> (img: ClImageBuffer<'a>)
        requires
            pixels@.len() == width * height,
        ensures
            img.spec_context() == *context,
            img.wf(),
            img.spec_dimensions() == (width, height),
            img.pixels() == pixels@,
            img.spec_mode() == mode,
    {
        ClImageBuffer { context, data: pixels, dims: (width, height), mode }
    }

    /// The context the image was made in.
    pub fn context(&self) -> (c: &'a ClContext)
        ensures
            *c == self.spec_context(),
    {
        self.context
    }

    /// Width and height. They never change after the upload.
    pub fn dimensions(&self) -> (d: (u32, u32))
        ensures
            d == self.spec_dimensions(),
    {
        self.dims
    }

    /// The mode the image was uploaded in.
    pub fn mode(&self) -> (m: AccessMode)
        ensures
            m == self.spec_mode(),
    {
        self.mode
    }

    /// The pixel at column `x` of row `y`.
    pub fn get(&self, x: u32, y: u32) -> (p: Rgba8)
        requires
            self.wf(),
            self.contains(x as int, y as int),
        ensures
            p == self.pixel(x as int, y as int),
    {
        let w: u32 = self.dims.0;
        let n: usize = self.data.len();
        proof {
            lemma_cell_in_grid(x as int, y as int, w as int, self.height());
            assert(0 <= y * w <= y * w + x < n);
        }
        let at: usize = (y as usize) * (w as usize) + (x as usize);
        self.data[at]
    }

    /// Reads the image back to the host: a copy of its pixels, row after row.
    pub fn download(&self) -> (out: Vec<Rgba8>)
        ensures
            out@ == self.pixels(),
    {
        let mut out: Vec<Rgba8> = Vec::new();
        let mut i: usize = 0;
        while i < self.data.len()
            invariant
                i <= self.data@.len(),
                out@ == self.data@.subrange(0, i as int),
            decreases self.data@.len() - i,
        {
            out.push(self.data[i]);
            i += 1;
            assert(out@ == self.data@.subrange(0, i as int));
        }
        assert(self.data@.subrange(0, i as int) == self.data@);
        out
    }
}

} // verus!
