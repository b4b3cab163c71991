use ray_tracers::buffer::{pixel_coords, BufferWrapper};
use ray_tracers::color::Color;
use ray_tracers::material::{scatter_absorbs, MaterialKind};
use ray_tracers::math::{clamp, stream_seed};
use ray_tracers::render_config::RenderConfig;
use ray_tracers::trace::{trace_step, TraceAction, TraceEvent};

#[test]
fn test_color_new() {
    let c = Color::new(10, 20, 30, 40);
    assert_eq!(c.r, 10);
    assert_eq!(c.g, 20);
    assert_eq!(c.b, 30);
    assert_eq!(c.a, 40);
}

#[test]
fn test_to_u32() {
    assert_eq!(Color::new(0x01, 0x02, 0x03, 0x04).to_u32(), 0x0403_0201);
    // Opaque primaries: red in the lowest byte, alpha in the highest.
    assert_eq!(Color::new(255, 255, 255, 255).to_u32(), 0xffff_ffff);
    assert_eq!(Color::new(255, 0, 0, 255).to_u32(), 0xff00_00ff);
    assert_eq!(Color::new(0, 255, 0, 255).to_u32(), 0xff00_ff00);
    assert_eq!(Color::new(0, 0, 0, 0).to_u32(), 0);
}

#[test]
fn test_to_u32_channels_recoverable() {
    let p = Color::new(12, 34, 56, 78).to_u32();
    assert_eq!((p & 0xff) as u8, 12);
    assert_eq!(((p >> 8) & 0xff) as u8, 34);
    assert_eq!(((p >> 16) & 0xff) as u8, 56);
    assert_eq!(((p >> 24) & 0xff) as u8, 78);
}

#[test]
fn test_clamp() {
    assert_eq!(clamp(5i64, 0i64, 10i64), 5);
    assert_eq!(clamp(-3i64, 0i64, 10i64), 0);
    assert_eq!(clamp(42i64, 0i64, 10i64), 10);
    assert_eq!(clamp(7u32, 7u32, 7u32), 7);
    // `max` is applied before `min`, so an inverted interval yields its
    // upper argument.
    assert_eq!(clamp(5u32, 7u32, 3u32), 3);
}

#[test]
fn test_render_config_default() {
    let c = RenderConfig::default();
    assert_eq!(c.width, 680);
    assert_eq!(c.height, 460);
    assert_eq!(c.sampling, 1);
    assert_eq!(c.max_scatter_depth, 50);
}

#[test]
fn test_stream_seed_deterministic() {
    assert_eq!(stream_seed(12345, 678), stream_seed(12345, 678));
    assert_eq!(stream_seed(0, 0), 0);
    assert_eq!(stream_seed(7, 9), 16);
}

#[test]
fn test_stream_seed_wraps() {
    assert_eq!(stream_seed(u64::MAX, 1), 0);
    assert_eq!(stream_seed(u64::MAX, 0), u64::MAX);
}

#[test]
fn test_stream_seeds_distinct_per_pixel() {
    let seed: u64 = 0xdead_beef;
    let a = stream_seed(seed, 0);
    let b = stream_seed(seed, 1);
    let c = stream_seed(seed, 680 * 460 - 1);
    assert_ne!(a, b);
    assert_ne!(a, c);
    assert_ne!(b, c);
}

#[test]
fn test_pixel_coords() {
    assert_eq!(pixel_coords(0, 680), (0, 0));
    assert_eq!(pixel_coords(679, 680), (679, 0));
    assert_eq!(pixel_coords(680, 680), (0, 1));
    assert_eq!(pixel_coords(683, 680), (3, 1));
    assert_eq!(pixel_coords(680 * 460 - 1, 680), (679, 459));
}

#[test]
fn test_buffer_len_and_pixel() {
    let b = BufferWrapper::new(vec![1, 2, 3]);
    assert_eq!(b.len(), 3);
    assert_eq!(b.pixel(0), 1);
    assert_eq!(b.pixel(2), 3);
}

#[test]
fn test_buffer_to_bytes() {
    let b = BufferWrapper::new(vec![0x0403_0201, 0xaabb_ccdd]);
    let bytes = b.to_bytes();
    assert_eq!(
        bytes,
        vec![0x01, 0x02, 0x03, 0x04, 0xdd, 0xcc, 0xbb, 0xaa]
    );
}

#[test]
fn test_color_roundtrip_through_buffer_bytes() {
    // A packed color placed in the frame buffer reaches the encoder as
    // the byte stream r, g, b, a, so the 8-bit channels survive the trip
    // into the buffer and out to bytes exactly.
    let c = Color::new(17, 34, 51, 255);
    let b = BufferWrapper::new(vec![c.to_u32()]);
    let bytes = b.to_bytes();
    assert_eq!(bytes, vec![17, 34, 51, 255]);
}

#[test]
fn test_color_constants() {
    assert_eq!(Color::white().to_u32(), 0xffff_ffff);
    assert_eq!(Color::red().to_u32(), 0xff00_00ff);
    assert_eq!(Color::green().to_u32(), 0xff00_ff00);
    assert_eq!(Color::white(), Color::new(255, 255, 255, 255));
    assert_eq!(Color::red(), Color::new(255, 0, 0, 255));
    assert_eq!(Color::green(), Color::new(0, 255, 0, 255));
}

#[test]
fn test_trace_step_background() {
    // A sample that misses every shape takes the background, at any
    // depth.
    assert_eq!(trace_step(0, 50, TraceEvent::NoHit), TraceAction::ReturnBackground);
    assert_eq!(trace_step(100, 50, TraceEvent::NoHit), TraceAction::ReturnBackground);
}

#[test]
fn test_trace_step_absorbed_is_black() {
    assert_eq!(trace_step(0, 50, TraceEvent::Absorbed), TraceAction::ReturnBlack);
    assert_eq!(trace_step(49, 50, TraceEvent::Absorbed), TraceAction::ReturnBlack);
}

#[test]
fn test_trace_step_budget() {
    // A scattered sample walks on only while the bounce budget allows.
    assert_eq!(trace_step(0, 50, TraceEvent::Scattered), TraceAction::Continue);
    assert_eq!(trace_step(49, 50, TraceEvent::Scattered), TraceAction::Continue);
    assert_eq!(trace_step(50, 50, TraceEvent::Scattered), TraceAction::ReturnBlack);
    assert_eq!(trace_step(51, 50, TraceEvent::Scattered), TraceAction::ReturnBlack);
    // A budget of zero allows no bounce at all.
    assert_eq!(trace_step(0, 0, TraceEvent::Scattered), TraceAction::ReturnBlack);
}

#[test]
fn test_scatter_absorbs() {
    // Lambertian and dielectric surfaces never absorb.
    assert!(!scatter_absorbs(MaterialKind::Lambertian, true));
    assert!(!scatter_absorbs(MaterialKind::Lambertian, false));
    assert!(!scatter_absorbs(MaterialKind::Dielectric, true));
    assert!(!scatter_absorbs(MaterialKind::Dielectric, false));
    // A metal absorbs exactly when the perturbed reflection fails to
    // leave the surface.
    assert!(scatter_absorbs(MaterialKind::Metal, false));
    assert!(!scatter_absorbs(MaterialKind::Metal, true));
    // Anything unrecognized absorbs.
    assert!(scatter_absorbs(MaterialKind::Other, true));
    assert!(scatter_absorbs(MaterialKind::Other, false));
}
