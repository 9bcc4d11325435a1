use softraster::buffer::{Color, TextureBuffer};
use softraster::geom::{ScreenPt, Vec2, Vec3, Vertex, SCALE};
use softraster::raster::RenderContext;
use softraster::stages::{MatrixStage, ScreenStage, SolidColor, UvGradient};

fn screen_vert(x: i64, y: i64) -> Vertex {
    Vertex { position: Vec3 { x: x * SCALE, y: y * SCALE, z: 0 }, uv: Vec2 { x: 0, y: 0 } }
}

fn pixel(buf: &TextureBuffer, x: u32, y: u32) -> [u8; 4] {
    let w = 128u32;
    let i = (4 * (y * w + x)) as usize;
    [buf.buffer[i], buf.buffer[i + 1], buf.buffer[i + 2], buf.buffer[i + 3]]
}

const RED: Color = Color { b: 255, g: 0, r: 0, a: 255 };
const BLUE: Color = Color { b: 0, g: 0, r: 255, a: 255 };
const CLEAR: [u8; 4] = [0, 0, 0, 0];

fn red_bytes() -> [u8; 4] {
    [255, 0, 0, 255]
}

fn blue_bytes() -> [u8; 4] {
    [0, 0, 255, 255]
}

#[test]
fn flat_bottom_triangle_exact_coverage() {
    let target = TextureBuffer::new((128, 128), 4);
    let mut ctx = RenderContext::new(false, target, ScreenStage::new(128), SolidColor {
        color: RED,
    });
    let vertices = vec![screen_vert(50, 50), screen_vert(30, 90), screen_vert(70, 90)];
    let indices: Vec<usize> = vec![0, 1, 2];
    ctx.draw_indexed_triangles(&indices, &vertices);
    assert_eq!(pixel(&ctx.target, 50, 70), red_bytes());
    assert_eq!(pixel(&ctx.target, 50, 10), CLEAR);
    assert_eq!(pixel(&ctx.target, 0, 0), CLEAR);
}

#[test]
fn shared_edge_tiles_exactly_once() {
    // Two triangles sharing the diagonal of the square [20,60) x [20,60):
    // their filled pixel sets are disjoint and their union is the square,
    // so the result does not depend on draw order.
    let a = screen_vert(20, 20);
    let b = screen_vert(60, 20);
    let c = screen_vert(60, 60);
    let d = screen_vert(20, 60);
    let verts = vec![a, b, c, d];
    let t1: Vec<usize> = vec![0, 1, 3];
    let t2: Vec<usize> = vec![1, 2, 3];

    let mut ctx1 = RenderContext::new(
        false,
        TextureBuffer::new((128, 128), 4),
        ScreenStage::new(128),
        SolidColor { color: RED },
    );
    ctx1.draw_indexed_triangles(&t1, &verts);
    ctx1.pixel_shader = SolidColor { color: BLUE };
    ctx1.draw_indexed_triangles(&t2, &verts);

    let mut ctx2 = RenderContext::new(
        false,
        TextureBuffer::new((128, 128), 4),
        ScreenStage::new(128),
        SolidColor { color: BLUE },
    );
    ctx2.draw_indexed_triangles(&t2, &verts);
    ctx2.pixel_shader = SolidColor { color: RED };
    ctx2.draw_indexed_triangles(&t1, &verts);

    // no double coverage: the later triangle never overwrites the earlier one
    assert_eq!(ctx1.target.buffer, ctx2.target.buffer);
    // full coverage of the square, nothing outside it
    for y in 0..128u32 {
        for x in 0..128u32 {
            let p = pixel(&ctx1.target, x, y);
            if (20..60).contains(&x) && (20..60).contains(&y) {
                assert!(p == red_bytes() || p == blue_bytes(), "hole at {} {}", x, y);
            } else {
                assert_eq!(p, CLEAR, "spill at {} {}", x, y);
            }
        }
    }
}

#[test]
fn winding_culls_exactly_one_orientation() {
    let verts = vec![screen_vert(50, 50), screen_vert(30, 90), screen_vert(70, 90)];
    let cw: Vec<usize> = vec![0, 1, 2];
    let ccw: Vec<usize> = vec![0, 2, 1];

    let mut culled = RenderContext::new(
        true,
        TextureBuffer::new((128, 128), 4),
        ScreenStage::new(128),
        SolidColor { color: RED },
    );
    culled.draw_indexed_triangles(&cw, &verts);
    assert!(culled.target.buffer.iter().all(|&v| v == 0));

    let mut drawn = RenderContext::new(
        true,
        TextureBuffer::new((128, 128), 4),
        ScreenStage::new(128),
        SolidColor { color: RED },
    );
    drawn.draw_indexed_triangles(&ccw, &verts);
    assert_eq!(pixel(&drawn.target, 50, 70), red_bytes());
}

#[test]
fn culling_disabled_renders_both_orientations() {
    let verts = vec![screen_vert(50, 50), screen_vert(30, 90), screen_vert(70, 90)];
    let cw: Vec<usize> = vec![0, 1, 2];
    let ccw: Vec<usize> = vec![0, 2, 1];

    let mut one = RenderContext::new(
        false,
        TextureBuffer::new((128, 128), 4),
        ScreenStage::new(128),
        SolidColor { color: RED },
    );
    one.draw_indexed_triangles(&cw, &verts);
    let mut two = RenderContext::new(
        false,
        TextureBuffer::new((128, 128), 4),
        ScreenStage::new(128),
        SolidColor { color: RED },
    );
    two.draw_indexed_triangles(&ccw, &verts);
    assert_eq!(one.target.buffer, two.target.buffer);
    assert_eq!(pixel(&one.target, 50, 70), red_bytes());
}

#[test]
fn constant_attribute_interpolates_exactly() {
    // All three corners carry the same texture coordinate; every covered
    // pixel must get exactly the color of that constant attribute.
    let uv = Vec2 { x: 256, y: 128 };
    let verts = vec![
        Vertex { position: Vec3 { x: 50 * SCALE, y: 50 * SCALE, z: 0 }, uv },
        Vertex { position: Vec3 { x: 30 * SCALE, y: 90 * SCALE, z: 0 }, uv },
        Vertex { position: Vec3 { x: 70 * SCALE, y: 90 * SCALE, z: 0 }, uv },
    ];
    let indices: Vec<usize> = vec![0, 1, 2];
    let mut ctx = RenderContext::new(
        false,
        TextureBuffer::new((128, 128), 4),
        ScreenStage::new(128),
        UvGradient {},
    );
    ctx.draw_indexed_triangles(&indices, &verts);
    // uv.x = 256 -> red channel 255; uv.y = 128 -> green channel 128
    let expected = [0u8, 128, 255, 255];
    assert_eq!(pixel(&ctx.target, 50, 70), expected);
    for y in 0..128u32 {
        for x in 0..128u32 {
            let p = pixel(&ctx.target, x, y);
            assert!(p == expected || p == CLEAR, "drifted pixel at {} {}: {:?}", x, y, p);
        }
    }
}

#[test]
fn degenerate_triangles_draw_nothing() {
    let mut ctx = RenderContext::new(
        false,
        TextureBuffer::new((128, 128), 4),
        ScreenStage::new(128),
        SolidColor { color: RED },
    );
    // all three corners at one point
    let point = vec![screen_vert(40, 40), screen_vert(40, 40), screen_vert(40, 40)];
    // zero height: a horizontal sliver
    let horizontal = vec![screen_vert(10, 50), screen_vert(30, 50), screen_vert(50, 50)];
    // zero width: a vertical sliver
    let vertical = vec![screen_vert(20, 10), screen_vert(20, 40), screen_vert(20, 70)];
    let indices: Vec<usize> = vec![0, 1, 2];
    ctx.draw_indexed_triangles(&indices, &point);
    ctx.draw_indexed_triangles(&indices, &horizontal);
    ctx.draw_indexed_triangles(&indices, &vertical);
    assert!(ctx.target.buffer.iter().all(|&v| v == 0));
}

#[test]
fn empty_index_list_draws_nothing() {
    let mut ctx = RenderContext::new(
        false,
        TextureBuffer::new((128, 128), 4),
        ScreenStage::new(128),
        SolidColor { color: RED },
    );
    let verts = vec![screen_vert(10, 10)];
    let indices: Vec<usize> = vec![];
    ctx.draw_indexed_triangles(&indices, &verts);
    assert!(ctx.target.buffer.iter().all(|&v| v == 0));
}

fn cube_vertices() -> Vec<Vertex> {
    let s = SCALE;
    let corners: [(i64, i64, i64); 24] = [
        (-1, -1, 1), (1, -1, 1), (1, 1, 1), (-1, 1, 1),
        (1, 1, 1), (1, 1, -1), (1, -1, -1), (1, -1, 1),
        (-1, -1, -1), (1, -1, -1), (1, 1, -1), (-1, 1, -1),
        (-1, -1, -1), (-1, -1, 1), (-1, 1, 1), (-1, 1, -1),
        (1, 1, 1), (-1, 1, 1), (-1, 1, -1), (1, 1, -1),
        (-1, -1, -1), (1, -1, -1), (1, -1, 1), (-1, -1, 1),
    ];
    let uvs: [(i64, i64); 4] = [(0, 0), (1, 0), (1, 1), (0, 1)];
    corners
        .iter()
        .enumerate()
        .map(|(i, &(x, y, z))| Vertex {
            position: Vec3 { x: x * s, y: y * s, z: z * s },
            uv: Vec2 { x: uvs[i % 4].0 * s, y: uvs[i % 4].1 * s },
        })
        .collect()
}

fn cube_indices() -> Vec<usize> {
    vec![
        0, 2, 1, 0, 3, 2,
        4, 5, 6, 4, 6, 7,
        8, 9, 10, 8, 10, 11,
        12, 14, 13, 12, 15, 14,
        16, 17, 18, 16, 18, 19,
        20, 22, 21, 20, 23, 22,
    ]
}

// A fixed model-view-projection for the cube scenario: a small rotation
// about two axes, a translation five units along z, and a w = z
// perspective, in SCALE fixed point.
fn cube_matrix() -> MatrixStage {
    MatrixStage::new([
        225, 48, 113, 0,
        0, 236, -100, 0,
        -123, 87, 207, 1280,
        -123, 87, 207, 1280,
    ])
}

#[test]
fn indexed_cube_renders_near_faces() {
    let mut ctx = RenderContext::new(
        true,
        TextureBuffer::new((128, 128), 4),
        cube_matrix(),
        UvGradient {},
    );
    ctx.draw_indexed_triangles(&cube_indices(), &cube_vertices());
    let mut covered = 0usize;
    for y in 0..128u32 {
        for x in 0..128u32 {
            let p = pixel(&ctx.target, x, y);
            if p != CLEAR {
                covered += 1;
                assert_eq!(p[3], 255, "shaded pixel must be opaque at {} {}", x, y);
            }
        }
    }
    assert!(covered > 0, "the near faces must produce coverage");
}

#[test]
fn indexed_cube_culls_far_faces() {
    // The three faces turned away from the camera: their triangles must
    // not touch a single pixel when backface culling is on.
    let all = cube_indices();
    let far: Vec<usize> = all[0..6]
        .iter()
        .chain(all[18..30].iter())
        .cloned()
        .collect();
    let mut ctx = RenderContext::new(
        true,
        TextureBuffer::new((128, 128), 4),
        cube_matrix(),
        UvGradient {},
    );
    ctx.draw_indexed_triangles(&far, &cube_vertices());
    assert!(ctx.target.buffer.iter().all(|&v| v == 0));

    // and with culling off the same triangles do render
    let mut open = RenderContext::new(
        false,
        TextureBuffer::new((128, 128), 4),
        cube_matrix(),
        UvGradient {},
    );
    open.draw_indexed_triangles(&far, &cube_vertices());
    assert!(open.target.buffer.iter().any(|&v| v != 0));
}

#[test]
fn flat_fill_entry_points_match_classification() {
    // Drawing a flat-top triangle through the generic entry point and
    // through the dedicated routine gives identical buffers.
    let p0 = ScreenPt { x: 10 * SCALE, y: 10 * SCALE };
    let p1 = ScreenPt { x: 40 * SCALE, y: 10 * SCALE };
    let p2 = ScreenPt { x: 25 * SCALE, y: 40 * SCALE };
    let v = screen_vert(0, 0);
    let mut direct = RenderContext::new(
        false,
        TextureBuffer::new((128, 128), 4),
        ScreenStage::new(128),
        SolidColor { color: RED },
    );
    direct.draw_flat_top_triangle(&p0, &p1, &p2, &v, &v, &v);
    let mut via_classify = RenderContext::new(
        false,
        TextureBuffer::new((128, 128), 4),
        ScreenStage::new(128),
        SolidColor { color: RED },
    );
    via_classify.draw_triangle(&p0, &p1, &p2, &v, &v, &v);
    assert_eq!(direct.target.buffer, via_classify.target.buffer);
    assert_eq!(pixel(&direct.target, 25, 20), red_bytes());
}
