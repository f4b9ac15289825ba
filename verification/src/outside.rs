//! What the library assumes of code it does not verify: the clock of the
//! standard library, the interface engine's types and repaint hook, the
//! rasterizer's constructors and pixel view, the byte cast and the fill.
//!
//! Verus believes every contract in this file without proof. The types that
//! are declared with their fields or variants are read from their own
//! crates; of the others nothing is known but their names.

use crate::inbox::RepaintInbox;
use egui_software_backend::BufferMutRef;
use egui_software_backend::ColorFieldOrder;
use egui_software_backend::EguiSoftwareRender;
use std::time::Duration;
use std::time::Instant;
use vstd::prelude::*;

verus! {

/// `std::time::Instant`, a point on the monotonic clock. Nothing is known of
/// its value.
#[verifier::external_type_specification]
#[verifier::external_body]
pub struct ExInstant(Instant);

/// `Instant::now` reads the monotonic clock. Nothing is claimed of the
/// reading.
pub assume_specification[ Instant::now ]() -> (reading: Instant)
;

/// `Instant::elapsed` measures the time since the instant was taken. Nothing
/// is claimed of the measure.
pub assume_specification[ Instant::elapsed ](start: &Instant) -> (elapsed: Duration)
;

/// `Duration::as_nanos` gives the whole duration in nanoseconds. A duration
/// is opaque here, so nothing is claimed of the number.
pub assume_specification[ Duration::as_nanos ](duration: &Duration) -> (nanos: u128)
;

/// `egui::Event`, one input event of the interface engine. The library
/// stores and hands on such events and never looks inside one.
#[verifier::external_type_specification]
#[verifier::external_body]
pub struct ExEvent(egui::Event);

/// `egui::Modifiers`, the five modifier-key flags, with its public fields.
#[verifier::external_type_specification]
pub struct ExModifiers(egui::Modifiers);

/// `egui::PointerButton`, the five pointer buttons that the interface engine
/// knows, with its variants.
#[verifier::external_type_specification]
pub struct ExPointerButton(egui::PointerButton);

/// `egui::Context`, the interface engine's handle. The library holds it and
/// lends it out.
#[verifier::external_type_specification]
#[verifier::external_body]
pub struct ExContext(egui::Context);

/// `egui::Context::set_request_repaint_callback` stores the callback in the
/// context; the engine calls it, from any thread, whenever a repaint is asked
/// for, with the delay after which it is wanted. The callback given here
/// hands that delay to the inbox. Nothing is returned.
#[verifier::external_body]
pub(crate) fn set_repaint_hook(context: &egui::Context, inbox: RepaintInbox) {
    context.set_request_repaint_callback(move |info| inbox.post_after_delay(info.delay));
}

/// `egui_software_backend::ColorFieldOrder`, the byte order of a pixel's
/// colour channels, with its two variants.
#[verifier::external_type_specification]
pub struct ExColorFieldOrder(ColorFieldOrder);

/// `egui_software_backend::EguiSoftwareRender`, the CPU rasterizer. The
/// library builds it, holds it and lends it out.
#[verifier::external_type_specification]
#[verifier::external_body]
pub struct ExEguiSoftwareRender(EguiSoftwareRender);

/// `EguiSoftwareRender::new` makes a rasterizer for the given channel order.
/// Its fields are private, so nothing is claimed of the result.
pub assume_specification[ EguiSoftwareRender::new ](order: ColorFieldOrder) -> (renderer:
    EguiSoftwareRender)
;

/// `EguiSoftwareRender::with_convert_tris_to_rects` sets a private flag and
/// hands the rasterizer back. Nothing is claimed of the result.
pub assume_specification[ EguiSoftwareRender::with_convert_tris_to_rects ](
    renderer: EguiSoftwareRender,
    set: bool,
) -> (configured: EguiSoftwareRender)
;

/// `EguiSoftwareRender::with_allow_raster_opt` sets a private flag and hands
/// the rasterizer back. Nothing is claimed of the result.
pub assume_specification[ EguiSoftwareRender::with_allow_raster_opt ](
    renderer: EguiSoftwareRender,
    set: bool,
) -> (configured: EguiSoftwareRender)
;

/// `EguiSoftwareRender::with_caching` sets a private flag and hands the
/// rasterizer back. Nothing is claimed of the result.
pub assume_specification[ EguiSoftwareRender::with_caching ](
    renderer: EguiSoftwareRender,
    set: bool,
) -> (configured: EguiSoftwareRender)
;

/// `egui_software_backend::BufferMutRef`, the rasterizer's view of a frame:
/// a mutable slice of four-byte pixels with its width and height, all public
/// fields.
#[verifier::external_type_specification]
pub struct ExBufferMutRef<'a>(BufferMutRef<'a>);

/// `BufferMutRef::new` panics on a zero width or height. Otherwise it stores
/// the slice and the two extents as given, and the largest valid column and
/// row index beside them.
pub assume_specification<'a>[ BufferMutRef::<'a>::new ](
    data: &'a mut [[u8; 4]],
    width: usize,
    height: usize,
) -> (buffer: BufferMutRef<'a>)
    requires
        width > 0,
        height > 0,
    ensures
        buffer.width == width,
        buffer.height == height,
        buffer.width_extent == width - 1,
        buffer.height_extent == height - 1,
        buffer.data@ == old(data)@,
;

/// The bytes of pixel `index` where every pixel takes four bytes in a row.
pub open spec fn pixel_bytes(bytes: Seq<u8>, index: int) -> Seq<u8> {
    bytes.subrange(4 * index, 4 * index + 4)
}

/// `bytemuck::cast_slice_mut` from bytes to four-byte pixels. It panics when
/// the byte count is no multiple of four (a pixel has alignment one, so no
/// alignment can fail). Otherwise the result views the same memory: a quarter
/// as many items, pixel `i` holding bytes `4 i` to `4 i + 3`.
#[verifier::external_body]
pub(crate) fn cast_pixels_mut(bytes: &mut [u8]) -> (pixels: &mut [[u8; 4]])
    requires
        old(bytes)@.len() % 4 == 0,
    ensures
        pixels@.len() * 4 == old(bytes)@.len(),
        forall|i: int|
            0 <= i < pixels@.len() ==> (#[trigger] pixels@[i])@ == pixel_bytes(old(bytes)@, i),
{
    bytemuck::cast_slice_mut(bytes)
}

/// `<[u8]>::fill` with zero: every byte of the slice becomes zero and the
/// length stays.
#[verifier::external_body]
pub(crate) fn fill_zero(bytes: &mut [u8])
    ensures
        final(bytes)@.len() == old(bytes)@.len(),
        forall|i: int| 0 <= i < final(bytes)@.len() ==> #[trigger] final(bytes)@[i] == 0u8,
{
    bytes.fill(0);
}

} // verus!
