use ellipsoid::buffer::{BufferError, BufferPhase, UploadStep};
use ellipsoid::color::Color;
use ellipsoid::graphics::{
    BufferKind, Graphics, INDEX_BUFFER_INIT_SIZE, VERTEX_BUFFER_INIT_SIZE,
};
use ellipsoid::scalar::{Point2, Scalar};
use ellipsoid::shape::{Geometry, Shape};
use ellipsoid::vertex::{Vertex, VERTEX_BYTES, VERTEX_WORDS};

fn s(value: f32) -> Scalar {
    Scalar::from_bits(value.to_bits())
}

fn vertex_bytes(v: &Vertex) -> Vec<u8> {
    let f = |x: Scalar| f32::from_bits(x.to_bits()).to_ne_bytes();
    let mut bytes = Vec::new();
    bytes.extend(f(v.position.x));
    bytes.extend(f(v.position.y));
    bytes.extend(f(v.position.z));
    bytes.extend(v.texture.to_ne_bytes());
    bytes.extend(f(v.texture_coords.x));
    bytes.extend(f(v.texture_coords.y));
    bytes.extend(f(v.color.r));
    bytes.extend(f(v.color.g));
    bytes.extend(f(v.color.b));
    bytes.extend(f(v.color.a));
    bytes
}

fn ring(sides: usize) -> Shape {
    let points = (0..sides)
        .map(|i| {
            let angle = (i as f32 / sides as f32) * 2.0 * std::f32::consts::PI;
            (
                Point2::new(s(angle.cos()), s(angle.sin())),
                Point2::new(s((angle.cos() + 1.0) / 2.0), s((angle.sin() + 1.0) / 2.0)),
            )
        })
        .collect();
    Shape::new(points)
}

#[test]
fn new_graphics_has_the_initial_buffers() {
    let graphics = Graphics::new(800, 600);
    assert_eq!(graphics.size(), (800, 600));
    assert_eq!(graphics.num_indices(), 0);
    assert_eq!(VERTEX_BUFFER_INIT_SIZE, 1000 * VERTEX_BYTES as u64);
    assert_eq!(INDEX_BUFFER_INIT_SIZE, 300 * 4);
    assert_eq!(VERTEX_BYTES, 4 * VERTEX_WORDS);
    assert_eq!(graphics.buffer(BufferKind::Vertex).capacity(), VERTEX_BUFFER_INIT_SIZE);
    assert_eq!(graphics.buffer(BufferKind::Index).capacity(), INDEX_BUFFER_INIT_SIZE);
    assert_eq!(graphics.buffer(BufferKind::Vertex).phase(), BufferPhase::Sized);
    assert_eq!(graphics.buffer(BufferKind::Index).phase(), BufferPhase::Sized);
    assert!(graphics.frame().vertices().is_empty());
    assert!(graphics.frame().indices().is_empty());
}

#[test]
fn resize_ignores_empty_sizes() {
    let mut graphics = Graphics::new(800, 600);
    assert!(!graphics.resize(0, 10));
    assert!(!graphics.resize(10, 0));
    assert!(!graphics.resize(0, 0));
    assert_eq!(graphics.size(), (800, 600));
    assert!(graphics.resize(1, 1));
    assert_eq!(graphics.size(), (1, 1));
    assert!(graphics.resize(1920, 1080));
    assert_eq!(graphics.size(), (1920, 1080));
}

#[test]
fn square_after_triangle_end_to_end() {
    let mut graphics = Graphics::new(640, 480);
    let triangle = Shape::from_triangle().emit().unwrap();
    let square = Shape::from_square().emit().unwrap();
    let mut all: Vec<Vertex> = triangle.0.clone();
    all.extend(square.0.clone());
    assert!(graphics.accepts(&triangle));
    graphics.add_geometry(triangle);
    assert!(graphics.accepts(&square));
    graphics.add_geometry(square);
    assert_eq!(graphics.frame().vertices().len(), 7);
    assert_eq!(graphics.frame().indices(), &vec![0, 1, 2, 3, 4, 5, 3, 5, 6]);

    let upload = graphics.update();
    assert_eq!(upload.num_indices, 9);
    assert_eq!(graphics.num_indices(), 9);
    assert_eq!(upload.vertex_step, Ok(UploadStep::Write));
    assert_eq!(upload.index_step, Ok(UploadStep::Write));

    let mut expected: Vec<u8> = all.iter().flat_map(vertex_bytes).collect();
    expected.extend(vec![0u8; 40]);
    assert_eq!(upload.vertex_bytes.len(), 8 * 40);
    assert_eq!(upload.vertex_bytes, expected);

    let mut expected = Vec::new();
    for i in [0u32, 1, 2, 3, 4, 5, 3, 5, 6, 0, 0, 0] {
        expected.extend(i.to_ne_bytes());
    }
    assert_eq!(upload.index_bytes, expected);

    assert!(graphics.frame().vertices().is_empty());
    assert!(graphics.frame().indices().is_empty());
}

#[test]
fn add_geometry_leaves_the_rest_alone() {
    let mut graphics = Graphics::new(640, 480);
    graphics.add_geometry(Shape::from_square().emit().unwrap());
    assert_eq!(graphics.size(), (640, 480));
    assert_eq!(graphics.num_indices(), 0);
    assert_eq!(graphics.buffer(BufferKind::Vertex).capacity(), VERTEX_BUFFER_INIT_SIZE);
    assert_eq!(graphics.buffer(BufferKind::Index).capacity(), INDEX_BUFFER_INIT_SIZE);
}

#[test]
fn a_stray_index_is_not_accepted() {
    let graphics = Graphics::new(640, 480);
    let (vertices, _) = Shape::from_square().emit().unwrap();
    let stray: Geometry = (vertices, vec![0, 1, 4]);
    assert!(!graphics.accepts(&stray));
}

#[test]
fn update_of_an_empty_frame() {
    let mut graphics = Graphics::new(640, 480);
    let upload = graphics.update();
    assert!(upload.vertex_bytes.is_empty());
    assert!(upload.index_bytes.is_empty());
    assert_eq!(upload.num_indices, 0);
    assert_eq!(upload.vertex_step, Ok(UploadStep::Write));
    assert_eq!(upload.index_step, Ok(UploadStep::Write));
}

#[test]
fn big_frame_grows_both_buffers() {
    let mut graphics = Graphics::new(640, 480);
    // 30 fans of 101 points: 3030 vertices, 8910 indices.
    for _ in 0..30 {
        let fan = ring(101).set_color(Color::green()).emit().unwrap();
        assert!(graphics.accepts(&fan));
        graphics.add_geometry(fan);
    }
    let upload = graphics.update();
    assert_eq!(upload.num_indices, 8910);
    assert_eq!(upload.vertex_bytes.len(), 3032 * 40);
    assert_eq!(upload.index_bytes.len(), 8912 * 4);
    // 40000 -> 80000 -> 160000 holds 121280; 1200 * 32 = 38400 holds 35648.
    assert_eq!(upload.vertex_step, Ok(UploadStep::Reallocate { capacity: 160_000 }));
    assert_eq!(upload.index_step, Ok(UploadStep::Reallocate { capacity: 38_400 }));
    assert_eq!(graphics.buffer(BufferKind::Vertex).capacity(), 40_000);
    assert_eq!(
        graphics.buffer(BufferKind::Vertex).phase(),
        BufferPhase::Growing { target: 160_000 }
    );

    assert_eq!(graphics.finish_growth(BufferKind::Vertex, true), Ok(()));
    assert_eq!(graphics.buffer(BufferKind::Vertex).capacity(), 160_000);
    assert_eq!(graphics.buffer(BufferKind::Index).capacity(), 1_200);
    assert_eq!(
        graphics.finish_growth(BufferKind::Index, false),
        Err(BufferError::BufferAllocationFailure)
    );
    assert_eq!(graphics.buffer(BufferKind::Index).capacity(), 1_200);
    assert_eq!(graphics.buffer(BufferKind::Index).phase(), BufferPhase::Sized);
    assert_eq!(graphics.num_indices(), 8910);

    // The next, small frame fits; the grown buffer keeps its size.
    graphics.add_geometry(Shape::from_triangle().emit().unwrap());
    let upload = graphics.update();
    assert_eq!(upload.vertex_step, Ok(UploadStep::Write));
    assert_eq!(upload.index_step, Ok(UploadStep::Write));
    assert_eq!(upload.num_indices, 3);
    assert_eq!(graphics.buffer(BufferKind::Vertex).capacity(), 160_000);
}
