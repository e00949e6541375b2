use layered_paint::algebra::Swizzling2;
use layered_paint::composite::{blend_add, blend_slot, background_slot, composite_solid, Rgba8, Slot, SolidTargets};
use layered_paint::framework::{accept_resize, on_surface_error, SurfaceAction, SurfaceFault};
use layered_paint::texture::{
    bytes_per_row, black_pixels, channel_order, upload_pixels, ChannelOrder, ImageFormat, TextureError,
};

fn rgba(r: u8, g: u8, b: u8, a: u8) -> Rgba8 {
    Rgba8 { r, g, b, a }
}

fn blank() -> SolidTargets {
    let clear = rgba(0, 0, 0, 0);
    SolidTargets { tmp1: clear, tmp2: clear, present: clear }
}

#[test]
fn one_red_layer_over_transparent_black() {
    let out = composite_solid(&vec![rgba(255, 0, 0, 255)], blank());
    assert_eq!(out.present, rgba(255, 0, 0, 255));
}

#[test]
fn two_opaque_layers_add_channelwise() {
    // (0.2, 0, 0, 1) and (0, 0.3, 0, 1) in 8-bit channels; alpha clamps at 1.
    let out = composite_solid(&vec![rgba(51, 0, 0, 255), rgba(0, 77, 0, 255)], blank());
    assert_eq!(out.present, rgba(51, 77, 0, 255));
}

#[test]
fn no_layer_leaves_present_untouched() {
    let start = SolidTargets { tmp1: rgba(1, 2, 3, 4), tmp2: rgba(5, 6, 7, 8), present: rgba(9, 9, 9, 9) };
    assert_eq!(composite_solid(&Vec::new(), start), start);
}

#[test]
fn composite_ignores_stale_tmp1_and_starts_from_tmp2() {
    let start = SolidTargets { tmp1: rgba(200, 200, 200, 200), tmp2: rgba(10, 0, 0, 0), present: rgba(0, 0, 0, 0) };
    let out = composite_solid(&vec![rgba(1, 0, 0, 0), rgba(2, 0, 0, 0), rgba(3, 0, 0, 0)], start);
    assert_eq!(out.present, rgba(16, 0, 0, 0));
}

#[test]
fn add_clamps_each_channel() {
    assert_eq!(blend_add(rgba(200, 100, 0, 255), rgba(100, 100, 0, 1)), rgba(255, 200, 0, 255));
}

#[test]
fn schedule_alternates_accumulators() {
    assert_eq!(background_slot(0), Slot::Tmp2);
    assert_eq!(background_slot(1), Slot::Tmp1);
    assert_eq!(blend_slot(0, 3), Slot::Tmp1);
    assert_eq!(blend_slot(1, 3), Slot::Tmp2);
    assert_eq!(blend_slot(2, 3), Slot::Present);
    assert_eq!(blend_slot(0, 1), Slot::Present);
}

#[test]
fn black_image_bytes() {
    let data = black_pixels(2, 3).unwrap();
    assert_eq!(data.len(), 24);
    assert!(data.iter().all(|b| *b == 0));
    assert_eq!(black_pixels(0, 5).unwrap().len(), 0);
    assert_eq!(bytes_per_row(1000), Ok(4000));
    assert_eq!(bytes_per_row(u32::MAX), Err(TextureError::TooLarge));
}

#[test]
fn upload_channel_orders() {
    assert_eq!(channel_order(ImageFormat::Rgba8UnormSrgb), Ok(ChannelOrder::Rgba));
    assert_eq!(channel_order(ImageFormat::Bgra8Unorm), Ok(ChannelOrder::Bgra));
    assert_eq!(channel_order(ImageFormat::Other), Err(TextureError::FormatNotSupported));
}

#[test]
fn frame_driver_decisions() {
    assert!(accept_resize(800, 600));
    assert!(!accept_resize(0, 600));
    assert!(!accept_resize(800, 0));
    assert_eq!(on_surface_error(SurfaceFault::Lost), SurfaceAction::Reconfigure);
    assert_eq!(on_surface_error(SurfaceFault::OutOfMemory), SurfaceAction::Exit);
    assert_eq!(on_surface_error(SurfaceFault::Timeout), SurfaceAction::Report);
}

#[test]
fn swizzles_on_pairs() {
    let v = [3, 4];
    assert_eq!(v.x(), 3);
    assert_eq!(v.y(), 4);
    assert_eq!(v.xy(), [3, 4]);
    assert_eq!(v.yx(), [4, 3]);
}

#[test]
fn bgra_upload_swaps_red_and_blue() {
    let rgba = vec![1, 2, 3, 4, 5, 6, 7, 8];
    assert_eq!(upload_pixels(ChannelOrder::Bgra, rgba.clone()), vec![3, 2, 1, 4, 7, 6, 5, 8]);
    assert_eq!(upload_pixels(ChannelOrder::Rgba, rgba.clone()), rgba);
}
