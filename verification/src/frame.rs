//! Geometry of the off-screen fractal image: how many compute workgroups
//! cover it, how large the host readback buffer must be, and turning that
//! buffer into an RGBA frame.

use vstd::prelude::*;

verus! {

/// Side length, in pixels, of the square image the fractal is rendered into.
pub const FRAME_EXTENT: u32 = 1024;

/// Side length of the square local workgroup declared by the compute shader.
pub const WORKGROUP_SIDE: u32 = 8;

/// Bytes per pixel of the `R8G8B8A8_UNORM` storage image.
pub const RGBA_BYTES_PER_PIXEL: u32 = 4;

/// Number of bytes an RGBA8 image of `width` by `height` pixels occupies.
pub open spec fn rgba_len(width: u32, height: u32) -> int {
    width as int * height as int * RGBA_BYTES_PER_PIXEL as int
}

/// A buffer of `len` bytes holds a whole `width` by `height` RGBA8 image.
pub open spec fn accepts_readback(width: u32, height: u32, len: int) -> bool {
    rgba_len(width, height) <= len
}

/// Number of workgroups along one axis of `extent` pixels (integer division,
/// as the dispatch is computed).
pub open spec fn groups_along(extent: u32) -> int {
    extent as int / WORKGROUP_SIDE as int
}

/// `ImageBuffer::<Rgba<u8>, Vec<u8>>::from_raw` followed by `into_raw`:
/// `from_raw` keeps the buffer unchanged and succeeds exactly when the
/// buffer holds at least `4 * width * height` subpixels (its length check
/// multiplies with `checked_mul` in `usize`, and a buffer's length never
/// exceeds `usize::MAX`, so an overflow there means the buffer is too short).
#[verifier::external_body]
fn rgba_from_raw(width: u32, height: u32, bytes: Vec<u8>) -> (r: Option<Vec<u8>>)
    ensures
        match r {
            Some(b) => rgba_len(width, height) <= bytes@.len() && b@ == bytes@,
            None => bytes@.len() < rgba_len(width, height),
        },
{
    image::ImageBuffer::<image::Rgba<u8>, Vec<u8>>::from_raw(width, height, bytes).map(
        image::ImageBuffer::into_raw,
    )
}

/// Workgroup counts `[x, y, z]` for a compute dispatch over a
/// `width` by `height` image with square workgroups of `WORKGROUP_SIDE`.
pub fn dispatch_groups(width: u32, height: u32) -> (groups: [u32; 3])
    ensures
        groups@ == seq![groups_along(width) as u32, groups_along(height) as u32, 1u32],
        groups[0] == width / 8,
        groups[1] == height / 8,
        groups[2] == 1,
{
    [width / WORKGROUP_SIDE, height / WORKGROUP_SIDE, 1]
}

/// Length in bytes of the host buffer that receives a copy of a
/// `width` by `height` RGBA8 image.
pub fn readback_len(width: u32, height: u32) -> (n: usize)
    requires
        rgba_len(width, height) <= usize::MAX,
    ensures
        n == rgba_len(width, height),
        n == width as int * height as int * 4,
{
    proof {
        assert(0 <= width as int * height as int) by (nonlinear_arith);
        assert(width as int * height as int <= rgba_len(width, height)) by (nonlinear_arith)
            requires
                0 <= width as int * height as int,
                rgba_len(width, height) == width as int * height as int * 4,
        ;
    }
    let area: usize = (width as usize) * (height as usize);
    area * (RGBA_BYTES_PER_PIXEL as usize)
}

/// A host-side copy of the rendered image: `width` by `height` RGBA8 pixels
/// stored row by row.
pub struct RgbaFrame {
    width: u32,
    height: u32,
    bytes: Vec<u8>,
}

impl RgbaFrame {
    /// The frame holds at least one full image worth of bytes.
    pub closed spec fn well_formed(&self) -> bool {
        rgba_len(self.width, self.height) <= self.bytes@.len()
    }

    pub closed spec fn spec_width(&self) -> u32 {
        self.width
    }

    pub closed spec fn spec_height(&self) -> u32 {
        self.height
    }

    pub closed spec fn spec_bytes(&self) -> Seq<u8> {
        self.bytes@
    }

    /// Wraps the bytes read back from the GPU; `None` when they are too few
    /// for a `width` by `height` RGBA8 image.
    pub fn from_readback(width: u32, height: u32, bytes: Vec<u8>) -> (r: Option<RgbaFrame>)
        ensures
            r.is_some() <==> accepts_readback(width, height, bytes@.len() as int),
            r.is_some() <==> width as int * height as int * 4 <= bytes@.len(),
            match r {
                Some(f) => {
                    &&& f.well_formed()
                    &&& f.spec_width() == width
                    &&& f.spec_height() == height
                    &&& f.spec_bytes() == bytes@
                },
                None => true,
            },
    {
        match rgba_from_raw(width, height, bytes) {
            Some(b) => Some(RgbaFrame { width, height, bytes: b }),
            None => None,
        }
    }

    pub fn width(&self) -> (w: u32)
        ensures
            w == self.spec_width(),
    {
        self.width
    }

    pub fn height(&self) -> (h: u32)
        ensures
            h == self.spec_height(),
    {
        self.height
    }

    /// Gives back the pixel bytes.
    pub fn into_bytes(self) -> (b: Vec<u8>)
        ensures
            b@ == self.spec_bytes(),
    {
        self.bytes
    }
}

/// A readback buffer sized by `readback_len` is always accepted as a frame
/// of the same dimensions.
pub proof fn readback_buffer_fits_frame(width: u32, height: u32)
    ensures
        accepts_readback(width, height, rgba_len(width, height)),
{
}

/// When the image sides are multiples of the workgroup side, the dispatch
/// covers the image exactly: the workgroups span precisely `width` by
/// `height` invocations, and every pixel lies in one workgroup of the grid.
pub proof fn dispatch_covers_image(width: u32, height: u32)
    requires
        width % WORKGROUP_SIDE == 0,
        height % WORKGROUP_SIDE == 0,
    ensures
        groups_along(width) * WORKGROUP_SIDE as int == width as int,
        groups_along(height) * WORKGROUP_SIDE as int == height as int,
        forall|x: int| 0 <= x < width ==> #[trigger] (x / WORKGROUP_SIDE as int) < groups_along(width),
        forall|y: int| 0 <= y < height ==> #[trigger] (y / WORKGROUP_SIDE as int) < groups_along(height),
{
    assert forall|x: int| 0 <= x < width implies #[trigger] (x / WORKGROUP_SIDE as int) < groups_along(width) by {
        assert(x / 8 < (width as int) / 8) by (nonlinear_arith)
            requires
                0 <= x < width as int,
                (width as int) % 8 == 0,
        ;
    }
    assert forall|y: int| 0 <= y < height implies #[trigger] (y / WORKGROUP_SIDE as int) < groups_along(height) by {
        assert(y / 8 < (height as int) / 8) by (nonlinear_arith)
            requires
                0 <= y < height as int,
                (height as int) % 8 == 0,
        ;
    }
}

} // verus!
