use nuefi::error::{EfiStatus, UefiError};
use nuefi::proto::graphics::{
    BltOperation, Coord, Framebuffer, GraphicsMode, GraphicsOutput, Pixel, PixelFormat, RawBltOperation,
    RawGraphicsInfo, RawGraphicsMode, RawGraphicsOutput, RawPixelFormat, RawPixelMask,
};

fn info(format: u32) -> RawGraphicsInfo {
    RawGraphicsInfo {
        version: 0,
        horizontal: 1024,
        vertical: 768,
        format: RawPixelFormat(format),
        info: RawPixelMask { red: 0, green: 0, blue: 0, reserved: 0 },
        stride: 1056,
    }
}

fn gop(max_mode: u32) -> GraphicsOutput {
    GraphicsOutput {
        raw: RawGraphicsOutput { query_mode: Some(1), set_mode: Some(2), blt: Some(3), mode: 0x100 },
        mode: RawGraphicsMode {
            max_mode,
            mode: 2,
            info: 0x200,
            info_size: 36,
            fb_base: 0x8000_0000,
            fb_size: 1056 * 768 * 4,
        },
        info: info(1),
    }
}

#[test]
fn pixel_formats() {
    assert_eq!(PixelFormat::from(RawPixelFormat::rgb()), PixelFormat::RGB);
    assert_eq!(PixelFormat::from(RawPixelFormat::bgr()), PixelFormat::BGR);
    assert_eq!(PixelFormat::from(RawPixelFormat::bit_mask()), PixelFormat::BitMask);
    assert_eq!(PixelFormat::from(RawPixelFormat::blt_only()), PixelFormat::BltOnly);
    assert_eq!(RawPixelFormat::format_max().0, 4);
}

#[test]
fn blt_operations_roundtrip() {
    for op in [
        BltOperation::VideoFill,
        BltOperation::VideoToBuffer,
        BltOperation::BufferToVideo,
        BltOperation::VideoToVideo,
    ] {
        assert_eq!(BltOperation::from(RawBltOperation::from(op)), op);
    }
    assert_eq!(RawBltOperation::from(BltOperation::BufferToVideo), RawBltOperation::new(2));
}

#[test]
fn graphics_query_mode_answers() {
    let m = GraphicsOutput::query_mode(3, EfiStatus::success(), 36, Some(info(0))).unwrap();
    assert_eq!(m.mode(), 3);
    assert_eq!(m.res(), (1024, 768));
    assert_eq!(m.stride(), 1056);
    assert_eq!(m.format(), PixelFormat::RGB);
    assert_eq!(
        GraphicsOutput::query_mode(3, EfiStatus::device_error(), 36, Some(info(0))).unwrap_err(),
        UefiError::new(EfiStatus::device_error())
    );
    assert_eq!(
        GraphicsOutput::query_mode(3, EfiStatus::success(), 20, Some(info(0))).unwrap_err(),
        UefiError::new(EfiStatus::buffer_too_small())
    );
    assert_eq!(
        GraphicsOutput::query_mode(3, EfiStatus::success(), 36, None).unwrap_err(),
        UefiError::new(EfiStatus::buffer_too_small())
    );
}

#[test]
fn modes_are_every_valid_mode() {
    assert_eq!(gop(4).modes(), vec![0, 1, 2, 3]);
    assert_eq!(gop(1).modes(), vec![0]);
    assert_eq!(gop(0).modes(), Vec::<u32>::new());
}

#[test]
fn current_mode() {
    let m = gop(4).mode();
    assert_eq!(m.mode(), 2);
    assert_eq!(m.format(), PixelFormat::BGR);
    let direct = GraphicsMode::new(2, info(1));
    assert_eq!(direct.res(), m.res());
}

#[test]
fn blt_checks_buffer() {
    let g = gop(4);
    let q = g.blt(100, BltOperation::BufferToVideo, (0, 0), (5, 6), (10, 10), 10).unwrap();
    assert_eq!(q.op, RawBltOperation(2));
    assert_eq!(q.dest, (5, 6));
    assert_eq!(q.res, (10, 10));
    assert_eq!(q.delta, 40);
    assert_eq!(
        g.blt(99, BltOperation::BufferToVideo, (0, 0), (0, 0), (10, 10), 10).unwrap_err(),
        UefiError::new(EfiStatus::invalid_parameter())
    );
}

#[test]
fn framebuffer_geometry() {
    let fb = gop(4).framebuffer();
    assert_eq!(fb.pixels(), 1056 * 768);
    assert_eq!(fb.index(3, 2), 2 * 1056 + 3);
    let small = Framebuffer::new(0, 10, 4);
    assert_eq!(small.pixels(), 2);
    // the offset may reach the framebuffer's size, but not go past it
    let two = Framebuffer::new(0, 16, 8);
    assert_eq!(two.index(1, 1), 9);
    assert_eq!(two.index(8, 1), 16);
}

#[test]
fn pixel_components() {
    let p = Pixel::new(1, 2, 3);
    assert_eq!(p.as_bytes(), &[3, 2, 1, 0]);
    assert_eq!((p.red(), p.green(), p.blue()), (1, 2, 3));
    let q = Pixel::from_bytes([9, 8, 7, 6]);
    assert_eq!((q.red(), q.green(), q.blue()), (7, 8, 9));
    assert_eq!(Coord::new(4, 5), Coord(4, 5));
}

#[test]
fn raw_names() {
    assert_eq!(RawPixelFormat::bgr().name(), Some("RawPixelFormat::BGR"));
    assert_eq!(RawPixelFormat::format_max().name(), Some("RawPixelFormat::FORMAT_MAX"));
    assert_eq!(RawPixelFormat(9).name(), None);
    assert_eq!(RawBltOperation::new(0).name(), Some("RawBltOperation::VIDEO_FILL"));
    assert_eq!(RawBltOperation::new(4).name(), Some("RawBltOperation::OPERATION_MAX"));
    assert_eq!(RawBltOperation::new(5).name(), None);
}

#[test]
fn query_mode_after_free() {
    let m = GraphicsMode::new(1, info(0));
    assert_eq!(GraphicsOutput::query_mode_done(Ok(m), Some(Ok(()))).unwrap().mode(), 1);
    assert_eq!(GraphicsOutput::query_mode_done(Ok(m), None).unwrap().mode(), 1);
    let e = UefiError::new(EfiStatus::invalid_parameter());
    assert_eq!(GraphicsOutput::query_mode_done(Ok(m), Some(Err(e))).unwrap_err(), e);
    let q = UefiError::new(EfiStatus::device_error());
    assert_eq!(GraphicsOutput::query_mode_done(Err(q), Some(Err(e))).unwrap_err(), q);
}
