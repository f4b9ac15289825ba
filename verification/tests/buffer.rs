use egui_layer_shell::buffer::prepare_canvas;
use egui_layer_shell::buffer::BufferLayout;
use egui_layer_shell::buffer::FrameError;
use egui_layer_shell::buffer::MAX_FRAME_BYTES;
use egui_layer_shell::layer_shell::surface::commit_sequence;
use egui_layer_shell::layer_shell::surface::SurfaceRequest;

#[test]
fn layout_of_300_by_200() {
    let layout = BufferLayout::for_surface(300, 200).unwrap();
    assert_eq!((layout.width(), layout.height(), layout.stride()), (300, 200, 1200));
    assert_eq!(layout.byte_len(), 240_000);
    assert_eq!(layout.byte_len(), 300 * 200 * 4);
}

#[test]
fn layout_of_one_pixel() {
    let layout = BufferLayout::for_surface(1, 1).unwrap();
    assert_eq!((layout.width(), layout.height(), layout.stride()), (1, 1, 4));
    assert_eq!(layout.byte_len(), 4);
}

#[test]
fn empty_surface_has_no_layout() {
    assert_eq!(BufferLayout::for_surface(0, 200), Err(FrameError::EmptySurface));
    assert_eq!(BufferLayout::for_surface(300, 0), Err(FrameError::EmptySurface));
    assert_eq!(BufferLayout::for_surface(0, 0), Err(FrameError::EmptySurface));
    assert_eq!(BufferLayout::for_surface(0, u32::MAX), Err(FrameError::EmptySurface));
}

#[test]
fn largest_frame_still_fits() {
    assert_eq!(MAX_FRAME_BYTES, i32::MAX as u64);
    // 536870911 pixels take 2147483644 bytes.
    let layout = BufferLayout::for_surface(536_870_911, 1).unwrap();
    assert_eq!((layout.width(), layout.height(), layout.stride()), (536_870_911, 1, 2_147_483_644));
    assert_eq!(layout.byte_len(), 2_147_483_644);
    let tall = BufferLayout::for_surface(1, 536_870_911).unwrap();
    assert_eq!((tall.width(), tall.height(), tall.stride()), (1, 536_870_911, 4));
    assert_eq!(tall.byte_len(), 2_147_483_644);
}

#[test]
fn too_large_surface_has_no_layout() {
    assert_eq!(BufferLayout::for_surface(536_870_912, 1), Err(FrameError::SurfaceTooLarge));
    assert_eq!(BufferLayout::for_surface(1, 536_870_912), Err(FrameError::SurfaceTooLarge));
    assert_eq!(BufferLayout::for_surface(32_768, 16_384), Err(FrameError::SurfaceTooLarge));
    assert_eq!(BufferLayout::for_surface(u32::MAX, u32::MAX), Err(FrameError::SurfaceTooLarge));
    assert!(BufferLayout::for_surface(32_768, 16_383).is_ok());
}

#[test]
fn prepare_canvas_clears_and_views_as_pixels() {
    let layout = BufferLayout::for_surface(3, 2).unwrap();
    let mut canvas = vec![0xAAu8; 24];
    {
        let buffer = prepare_canvas(&mut canvas, &layout).unwrap();
        assert_eq!(buffer.width, 3);
        assert_eq!(buffer.height, 2);
        assert_eq!(buffer.width_extent, 2);
        assert_eq!(buffer.height_extent, 1);
        assert_eq!(buffer.data.len(), 6);
        assert!(buffer.data.iter().all(|pixel| *pixel == [0, 0, 0, 0]));
    }
    assert_eq!(canvas, vec![0u8; 24]);
}

#[test]
fn pixels_view_the_canvas_bytes() {
    let layout = BufferLayout::for_surface(2, 2).unwrap();
    let mut canvas = vec![0x55u8; 16];
    {
        let buffer = prepare_canvas(&mut canvas, &layout).unwrap();
        buffer.data[0] = [1, 2, 3, 4];
        buffer.data[3] = [9, 8, 7, 6];
    }
    assert_eq!(canvas, vec![1, 2, 3, 4, 0, 0, 0, 0, 0, 0, 0, 0, 9, 8, 7, 6]);
}

#[test]
fn prepare_canvas_leaves_the_rest_of_the_memory() {
    // A pool hands out memory in blocks, so a canvas may be longer than the frame.
    let layout = BufferLayout::for_surface(1, 2).unwrap();
    let mut canvas = vec![0x77u8; 64];
    {
        let buffer = prepare_canvas(&mut canvas, &layout).unwrap();
        assert_eq!(buffer.data.len(), 2);
        assert_eq!(buffer.width, 1);
        assert_eq!(buffer.height, 2);
    }
    assert_eq!(&canvas[..8], &[0u8; 8]);
    assert!(canvas[8..].iter().all(|byte| *byte == 0x77));
}

#[test]
fn prepare_canvas_rejects_short_memory() {
    let layout = BufferLayout::for_surface(3, 2).unwrap();
    let mut canvas = vec![0xAAu8; 23];
    assert!(matches!(prepare_canvas(&mut canvas, &layout), Err(FrameError::CanvasTooSmall)));
    assert_eq!(canvas, vec![0xAAu8; 23]);
    let mut none: Vec<u8> = Vec::new();
    assert!(matches!(prepare_canvas(&mut none, &layout), Err(FrameError::CanvasTooSmall)));
}

#[test]
fn frame_of_300_by_200_is_240000_bytes() {
    let layout = BufferLayout::for_surface(300, 200).unwrap();
    let mut canvas = vec![0xFFu8; layout.byte_len()];
    let buffer = prepare_canvas(&mut canvas, &layout).unwrap();
    assert_eq!(buffer.data.len() * 4, 240_000);
    assert_eq!(buffer.width * buffer.height, 60_000);
}

#[test]
fn commit_sequence_is_attach_damage_size_frame_commit() {
    let layout = BufferLayout::for_surface(300, 200).unwrap();
    assert_eq!(
        commit_sequence(&layout),
        vec![
            SurfaceRequest::Attach,
            SurfaceRequest::DamageBuffer { x: 0, y: 0, width: 300, height: 200 },
            SurfaceRequest::SetSize { width: 300, height: 200 },
            SurfaceRequest::Frame,
            SurfaceRequest::Commit,
        ]
    );
}

#[test]
fn commit_sequence_follows_the_layout() {
    let layout = BufferLayout::for_surface(1, 7).unwrap();
    let requests = commit_sequence(&layout);
    assert_eq!(requests.len(), 5);
    assert_eq!(requests[1], SurfaceRequest::DamageBuffer { x: 0, y: 0, width: 1, height: 7 });
    assert_eq!(requests[2], SurfaceRequest::SetSize { width: 1, height: 7 });
}
