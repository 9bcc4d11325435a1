use softraster::buffer::{Color, TextureBuffer};
use softraster::fps::FpsCounter;
use softraster::geom::{vertex_lerp, ClipPos, ScreenPt, Vec2, Vec3, Vertex, SCALE};
use softraster::raster::{barycentric_coordinates, RenderContext};
use softraster::stages::{MatrixStage, PixelStage, ScreenStage, SolidColor, UvGradient, VertexStage};

fn vert(px: i64, py: i64, pz: i64, ux: i64, uy: i64) -> Vertex {
    Vertex { position: Vec3 { x: px, y: py, z: pz }, uv: Vec2 { x: ux, y: uy } }
}

#[test]
fn texture_buffer_new_and_pitch() {
    let buf = TextureBuffer::new((4, 3), 4);
    assert_eq!(buf.pitch(), 16);
    assert_eq!(buf.buffer.len(), 48);
    assert!(buf.buffer.iter().all(|&v| v == 0));
}

#[test]
fn texture_buffer_set_and_clear() {
    let mut buf = TextureBuffer::new((4, 3), 4);
    buf.set((1, 2), &Color { b: 9, g: 8, r: 7, a: 6 });
    let i: usize = 4 * (2 * 4 + 1);
    assert_eq!(&buf.buffer[i..i + 4], &[9, 8, 7, 6]);
    for (j, &v) in buf.buffer.iter().enumerate() {
        if !(i..i + 4).contains(&j) {
            assert_eq!(v, 0);
        }
    }
    buf.clear(7);
    assert!(buf.buffer.iter().all(|&v| v == 7));
}

#[test]
fn barycentric_weights_sum_to_denominator() {
    let p0 = ScreenPt { x: 0, y: 0 };
    let p1 = ScreenPt { x: 1024, y: 0 };
    let p2 = ScreenPt { x: 0, y: 1024 };
    let sample = ScreenPt { x: 256, y: 256 };
    let (w0, w1, w2, d) = barycentric_coordinates(&sample, &p0, &p1, &p2);
    assert_eq!(d, 1024 * 1024);
    assert_eq!(w1, 256 * 1024);
    assert_eq!(w2, 256 * 1024);
    assert_eq!(w0, d - w1 - w2);
    assert_eq!(w0 + w1 + w2, d);
}

#[test]
fn viewport_transform_is_exact() {
    let ctx = RenderContext::new(
        false,
        TextureBuffer::new((128, 128), 4),
        ScreenStage::new(128),
        SolidColor { color: Color { b: 0, g: 0, r: 0, a: 0 } },
    );
    // ndc 0 maps to the center column, ndc -1 to column 0
    let center = ctx.transform_to_target_coordinates(&ClipPos { x: 0, y: 0, z: 0, w: 1000 });
    assert_eq!(center.x, 64 * SCALE);
    assert_eq!(center.y, 64 * SCALE);
    let corner = ctx.transform_to_target_coordinates(&ClipPos { x: -1000, y: -1000, z: 0, w: 1000 });
    assert_eq!(corner.x, 0);
    assert_eq!(corner.y, 0);
}

#[test]
fn screen_stage_round_trips_pixel_coordinates() {
    let ctx = RenderContext::new(
        false,
        TextureBuffer::new((128, 128), 4),
        ScreenStage::new(128),
        SolidColor { color: Color { b: 0, g: 0, r: 0, a: 0 } },
    );
    let v = vert(37 * SCALE + 5, 99 * SCALE + 131, 0, 0, 0);
    let clip = ctx.vertex_shader.transform(&v);
    let screen = ctx.transform_to_target_coordinates(&clip);
    assert_eq!(screen.x, 37 * SCALE + 5);
    assert_eq!(screen.y, 99 * SCALE + 131);
}

#[test]
fn vertex_linear_ops() {
    let a = vert(10, 20, 30, 40, 50);
    let b = vert(1, 2, 3, 4, 5);
    let sum = a.plus(b);
    assert_eq!(sum, vert(11, 22, 33, 44, 55));
    let diff = a.minus(b);
    assert_eq!(diff, vert(9, 18, 27, 36, 45));
    let half = b.scaled(1, 2);
    // round-to-nearest, halves up: 0.5 -> 1, 1.0 -> 1, 1.5 -> 2, 2.0 -> 2, 2.5 -> 3
    assert_eq!(half, vert(1, 1, 2, 2, 3));
}

#[test]
fn vertex_lerp_blends_and_rounds_once() {
    let a = vert(0, 0, 0, 0, 0);
    let b = vert(10, 9, -10, 256, 3);
    let third = vertex_lerp(a, b, 1, 3);
    // 10/3 -> 3, 9/3 -> 3, -10/3 -> -3, 256/3 -> 85, 3/3 -> 1
    assert_eq!(third, vert(3, 3, -3, 85, 1));
    let whole = vertex_lerp(a, b, 3, 3);
    assert_eq!(whole, b);
}

#[test]
fn matrix_stage_identity_keeps_positions() {
    let s = SCALE;
    let id = MatrixStage::new([s, 0, 0, 0, 0, s, 0, 0, 0, 0, s, 0, 0, 0, 0, s]);
    let v = vert(123, -456, 789, 0, 0);
    let clip = id.transform(&v);
    assert_eq!(clip.x, 123);
    assert_eq!(clip.y, -456);
    assert_eq!(clip.z, 789);
    assert_eq!(clip.w, SCALE);
}

#[test]
fn uv_gradient_maps_texture_coordinates_to_bytes() {
    let stage = UvGradient {};
    let c = stage.shade(&vert(0, 0, 0, 256, 128));
    assert_eq!((c.b, c.g, c.r, c.a), (0, 128, 255, 255));
    let clamped_high = stage.shade(&vert(0, 0, 0, 512, -64));
    assert_eq!((clamped_high.b, clamped_high.g, clamped_high.r, clamped_high.a), (0, 0, 255, 255));
    let zero = stage.shade(&vert(0, 0, 0, 0, 0));
    assert_eq!((zero.b, zero.g, zero.r, zero.a), (0, 0, 0, 255));
}

#[test]
fn solid_color_ignores_attributes() {
    let stage = SolidColor { color: Color { b: 1, g: 2, r: 3, a: 4 } };
    let c = stage.shade(&vert(7, 7, 7, 7, 7));
    assert_eq!(c, Color { b: 1, g: 2, r: 3, a: 4 });
}

#[test]
fn fps_counter_counts_frames() {
    let mut fps = FpsCounter::new();
    assert_eq!(fps.counter, 0);
    match fps.update() {
        // a full second can only have passed if the test was suspended
        Some(reported) => {
            assert_eq!(reported, 1);
            assert_eq!(fps.counter, 0);
        }
        None => assert_eq!(fps.counter, 1),
    }
}
