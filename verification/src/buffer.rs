//! The pixel buffer of one frame: its size in the forms that the shared
//! memory pool, the surface and the rasterizer ask for, and the pixel view
//! that is cut out of the pool's memory.

use crate::outside::cast_pixels_mut;
use crate::outside::fill_zero;
use crate::outside::pixel_bytes;
use egui_software_backend::BufferMutRef;
use vstd::prelude::*;

verus! {

/// Why no frame can be produced.
#[derive(Clone, Copy, Debug, PartialEq, Eq, Structural)]
pub enum FrameError {
    /// The surface has not been configured, so it has no size yet.
    NotConfigured,
    /// The surface is zero pixels wide or high.
    EmptySurface,
    /// The frame's bytes cannot be counted in an `i32`, as the display
    /// protocol requires.
    SurfaceTooLarge,
    /// The memory handed in is shorter than the frame.
    CanvasTooSmall,
}

/// The most bytes a frame may take.
pub const MAX_FRAME_BYTES: u64 = 0x7fff_ffff;

/// The bytes of a frame of `width` by `height` pixels of four bytes each.
pub open spec fn frame_bytes(width: int, height: int) -> int {
    width * height * 4
}

/// Why a surface of `width` by `height` pixels can have no frame, if it can
/// have none: it is empty, or its frame would take too many bytes.
pub open spec fn surface_fault(width: u32, height: u32) -> Option<FrameError> {
    if width == 0 || height == 0 {
        Some(FrameError::EmptySurface)
    } else if frame_bytes(width as int, height as int) > MAX_FRAME_BYTES {
        Some(FrameError::SurfaceTooLarge)
    } else {
        None
    }
}

/// The size of one frame: rows of four-byte pixels with no padding between
/// them. A layout is never empty, and its bytes can be counted in an `i32`.
#[derive(Clone, Copy, Debug, PartialEq, Eq)]
pub struct BufferLayout {
    width: u32,
    height: u32,
}

impl BufferLayout {
    #[verifier::type_invariant]
    closed spec fn inv(self) -> bool {
        surface_fault(self.width, self.height) is None
    }

    /// Pixels in a row.
    pub closed spec fn columns(self) -> u32 {
        self.width
    }

    /// Rows.
    pub closed spec fn rows(self) -> u32 {
        self.height
    }

    /// Width and height in pixels.
    pub open spec fn size(self) -> (u32, u32) {
        (self.columns(), self.rows())
    }

    /// The bytes of the frame.
    pub open spec fn bytes(self) -> int {
        frame_bytes(self.columns() as int, self.rows() as int)
    }

    /// The pixels of the frame.
    pub open spec fn pixels(self) -> int {
        self.columns() * self.rows()
    }

    /// The layout for a surface of `width` by `height` pixels, or the reason
    /// why such a surface can have no frame.
    pub fn for_surface(width: u32, height: u32) -> (layout: Result<BufferLayout, FrameError>)
        ensures
            layout matches Ok(l) ==> surface_fault(width, height) is None && l.size() == (
                width,
                height,
            ),
            layout matches Err(e) ==> surface_fault(width, height) == Some(e),
    {
        if width == 0 || height == 0 {
            return Err(FrameError::EmptySurface);
        }
        assert(width * height <= u64::MAX) by (nonlinear_arith)
            requires
                width <= 0xffff_ffff,
                height <= 0xffff_ffff,
        ;
        let pixels: u64 = (width as u64) * (height as u64);
        if pixels > MAX_FRAME_BYTES / 4 {
            return Err(FrameError::SurfaceTooLarge);
        }
        Ok(BufferLayout { width, height })
    }

    /// Pixels in a row.
    pub fn width(&self) -> (width: i32)
        ensures
            width == self.columns(),
            width > 0,
    {
        proof {
            use_type_invariant(self);
            lemma_frame_fits(self.width, self.height);
        }
        self.width as i32
    }

    /// Rows.
    pub fn height(&self) -> (height: i32)
        ensures
            height == self.rows(),
            height > 0,
    {
        proof {
            use_type_invariant(self);
            lemma_frame_fits(self.width, self.height);
        }
        self.height as i32
    }

    /// Bytes from the start of one row to the start of the next.
    pub fn stride(&self) -> (stride: i32)
        ensures
            stride == 4 * self.columns(),
    {
        proof {
            use_type_invariant(self);
            lemma_frame_fits(self.width, self.height);
        }
        (4 * self.width) as i32
    }

    /// The bytes of the frame.
    pub fn byte_len(&self) -> (len: usize)
        ensures
            len == self.bytes(),
    {
        proof {
            use_type_invariant(self);
            lemma_frame_fits(self.width, self.height);
        }
        ((4 * self.width) as usize) * (self.height as usize)
    }
}

/// Where a surface can have a frame, neither its extents nor its pixels
/// exceed a quarter of the byte limit, and it is not empty.
pub proof fn lemma_frame_fits(width: u32, height: u32)
    requires
        surface_fault(width, height) is None,
    ensures
        0 < width <= MAX_FRAME_BYTES / 4,
        0 < height <= MAX_FRAME_BYTES / 4,
        0 < width * height <= MAX_FRAME_BYTES / 4,
        frame_bytes(width as int, height as int) == (4 * width) * height,
{
    let w = width as int;
    let h = height as int;
    assert(w <= w * h && h <= w * h && w * h * 4 == (4 * w) * h) by (nonlinear_arith)
        requires
            w > 0,
            h > 0,
    ;
}

/// Whether all four bytes of a pixel are zero.
pub open spec fn is_clear(pixel: [u8; 4]) -> bool {
    forall|j: int| 0 <= j < 4 ==> pixel@[j] == 0u8
}

/// Cuts the frame out of the pool's memory: the first `layout.bytes()` bytes
/// of `canvas`, set to zero and viewed as pixels of the layout's width and
/// height. Fails exactly when the canvas is shorter than the frame, and then
/// leaves the canvas as it is.
pub fn prepare_canvas<'a>(canvas: &'a mut [u8], layout: &BufferLayout) -> (frame: Result<
    BufferMutRef<'a>,
    FrameError,
>)
    ensures
        frame is Err <==> old(canvas)@.len() < layout.bytes(),
        frame matches Err(e) ==> e == FrameError::CanvasTooSmall && final(canvas)@ == old(
            canvas,
        )@,
        frame matches Ok(buffer) ==> {
            &&& buffer.width == layout.columns()
            &&& buffer.height == layout.rows()
            &&& buffer.data@.len() == layout.pixels()
            &&& forall|i: int| 0 <= i < buffer.data@.len() ==> is_clear(#[trigger] buffer.data@[i])
        },
{
    proof {
        use_type_invariant(layout);
        lemma_frame_fits(layout.width, layout.height);
    }
    let len = layout.byte_len();
    if canvas.len() < len {
        return Err(FrameError::CanvasTooSmall);
    }
    let (bytes, _rest) = canvas.split_at_mut(len);
    fill_zero(bytes);
    let ghost cleared = bytes@;
    let pixels = cast_pixels_mut(bytes);
    assert forall|i: int| 0 <= i < pixels@.len() implies is_clear(#[trigger] pixels@[i]) by {
        assert(pixels@[i]@ == pixel_bytes(cleared, i));
    }
    assert(pixels@.len() == layout.columns() * layout.rows()) by (nonlinear_arith)
        requires
            pixels@.len() * 4 == layout.columns() * layout.rows() * 4,
    ;
    Ok(BufferMutRef::new(pixels, layout.width() as usize, layout.height() as usize))
}

} // verus!
