use ellipsoid::color::Color;
use ellipsoid::scalar::{Point2, Point3, Scalar};
use ellipsoid::shape::{Shape, ShapeError};
use ellipsoid::vertex::{Vertex, VertexRaw, BLANK_TEXTURE};

fn s(value: f32) -> Scalar {
    Scalar::from_bits(value.to_bits())
}

fn p(x: f32, y: f32) -> Point2 {
    Point2::new(s(x), s(y))
}

/// Texture coordinates by the bounding box of the positions.
fn boxed(positions: &[(f32, f32)]) -> Vec<(Point2, Point2)> {
    let mut low = (f32::MAX, f32::MAX);
    let mut high = (f32::MIN, f32::MIN);
    for &(x, y) in positions {
        low = (low.0.min(x), low.1.min(y));
        high = (high.0.max(x), high.1.max(y));
    }
    positions
        .iter()
        .map(|&(x, y)| (p(x, y), p((x - low.0) / (high.0 - low.0), (y - low.1) / (high.1 - low.1))))
        .collect()
}

fn ring(sides: usize) -> Vec<(Point2, Point2)> {
    let positions: Vec<(f32, f32)> = (0..sides)
        .map(|i| {
            let angle = (i as f32 / sides as f32) * 2.0 * std::f32::consts::PI;
            (angle.cos(), angle.sin())
        })
        .collect();
    boxed(&positions)
}

#[test]
fn unit_square_has_the_documented_corners() {
    let square = Shape::from_square();
    assert_eq!(square.points, boxed(&[(0.0, 0.0), (1.0, 0.0), (1.0, 1.0), (0.0, 1.0)]));
    assert_eq!(square.texture, BLANK_TEXTURE);
    assert_eq!(square.color, Color::white());
    assert_eq!(square.z, s(0.0));
}

#[test]
fn centered_square_has_the_documented_corners() {
    let square = Shape::from_square_centered();
    assert_eq!(square.points, boxed(&[(-0.5, -0.5), (0.5, -0.5), (0.5, 0.5), (-0.5, 0.5)]));
    assert_eq!(square.points[0].1, p(0.0, 0.0));
    assert_eq!(square.points[2].1, p(1.0, 1.0));
}

#[test]
fn triangle_has_the_documented_corners() {
    let triangle = Shape::from_triangle();
    assert_eq!(triangle.points, boxed(&[(0.0, 0.5), (-0.5, -0.5), (0.5, -0.5)]));
    assert_eq!(triangle.points[0].1, p(0.5, 1.0));
}

#[test]
fn polygon_needs_three_sides() {
    assert_eq!(Shape::check_sides(0), Err(ShapeError::InvalidShapeDescriptor));
    assert_eq!(Shape::check_sides(2), Err(ShapeError::InvalidShapeDescriptor));
    assert_eq!(Shape::check_sides(3), Ok(()));
    assert_eq!(Shape::check_sides(64), Ok(()));
}

#[test]
fn new_shape_is_white_blank_and_flat() {
    let points = ring(5);
    let shape = Shape::new(points.clone());
    assert_eq!(shape.points, points);
    assert_eq!(shape.texture, 0);
    assert_eq!(shape.color, Color::white());
    assert_eq!(shape.z, s(0.0));
}

#[test]
fn setters_change_one_attribute() {
    let base = Shape::from_square();
    let textured = base.clone().set_texture(3);
    assert_eq!(textured, Shape { texture: 3, ..base.clone() });
    assert_eq!(textured.clone().reset_texture(), base);
    let colored = base.clone().set_color(Color::red());
    assert_eq!(colored, Shape { color: Color::red(), ..base.clone() });
    let deep = base.clone().set_z(s(0.75));
    assert_eq!(deep, Shape { z: s(0.75), ..base.clone() });
}

#[test]
fn apply_moves_positions_only() {
    let shape = Shape::from_square().set_texture(2).set_color(Color::green()).set_z(s(0.5));
    let moved = shape.clone().apply(|q: Point2| {
        let x = f32::from_bits(q.x.to_bits());
        let y = f32::from_bits(q.y.to_bits());
        p(2.0 * x + 1.0, 3.0 * y - 1.0)
    });
    let positions: Vec<Point2> = moved.points.iter().map(|c| c.0).collect();
    assert_eq!(positions, vec![p(1.0, -1.0), p(3.0, -1.0), p(3.0, 2.0), p(1.0, 2.0)]);
    let coords: Vec<Point2> = moved.points.iter().map(|c| c.1).collect();
    let before: Vec<Point2> = shape.points.iter().map(|c| c.1).collect();
    assert_eq!(coords, before);
    assert_eq!(moved.texture, 2);
    assert_eq!(moved.color, Color::green());
    assert_eq!(moved.z, s(0.5));
}

#[test]
fn emit_refuses_fewer_than_three_points() {
    for count in 0..3 {
        let shape = Shape::new(ring(5)[..count].to_vec());
        assert_eq!(shape.emit(), Err(ShapeError::InsufficientPoints));
    }
}

#[test]
fn emit_unit_square() {
    let (vertices, indices) = Shape::from_square().emit().unwrap();
    assert_eq!(indices, vec![0, 1, 2, 0, 2, 3]);
    let corners = [(0.0, 0.0), (1.0, 0.0), (1.0, 1.0), (0.0, 1.0)];
    let expected: Vec<Vertex> = corners
        .iter()
        .map(|&(x, y)| Vertex {
            position: Point3::new(s(x), s(y), s(0.0)),
            texture: 0,
            texture_coords: p(x, y),
            color: Color::white(),
        })
        .collect();
    assert_eq!(vertices, expected);
}

#[test]
fn emit_triangle_is_one_triangle() {
    let (vertices, indices) = Shape::from_triangle().emit().unwrap();
    assert_eq!(vertices.len(), 3);
    assert_eq!(indices, vec![0, 1, 2]);
}

#[test]
fn emit_carries_the_shape_attributes() {
    let shape = Shape::new(ring(6)).set_texture(7).set_color(Color::red()).set_z(s(-0.25));
    let points = shape.points.clone();
    let (vertices, _) = shape.emit().unwrap();
    assert_eq!(vertices.len(), 6);
    for (vertex, point) in vertices.iter().zip(points.iter()) {
        assert_eq!(vertex.position, Point3::at_depth(point.0, s(-0.25)));
        assert_eq!(vertex.texture_coords, point.1);
        assert_eq!(vertex.texture, 7);
        assert_eq!(vertex.color, Color::red());
    }
}

#[test]
fn fan_has_three_indices_per_triangle() {
    for n in 3..40usize {
        let (vertices, indices) = Shape::new(ring(n)).emit().unwrap();
        assert_eq!(vertices.len(), n);
        assert_eq!(indices.len(), 3 * (n - 2));
        assert!(indices.iter().all(|&i| (i as usize) < n));
        assert_eq!(indices.iter().filter(|&&i| i == 0).count(), n - 2);
        for (t, triangle) in indices.chunks(3).enumerate() {
            assert_eq!(triangle, &[0, t as u32 + 1, t as u32 + 2]);
        }
    }
}

#[test]
fn vertex_new_is_white_and_blank() {
    let v = Vertex::new(Point3::new(s(1.0), s(2.0), s(3.0)), p(0.5, 0.25));
    assert_eq!(v.position, Point3::new(s(1.0), s(2.0), s(3.0)));
    assert_eq!(v.texture_coords, p(0.5, 0.25));
    assert_eq!(v.texture, 0);
    assert_eq!(v.color, Color::white());
}

#[test]
fn raw_vertex_layout() {
    let v = Vertex {
        position: Point3::new(s(1.0), s(2.0), s(3.0)),
        texture: 9,
        texture_coords: p(0.5, 0.25),
        color: Color { r: s(0.1), g: s(0.2), b: s(0.3), a: s(0.4) },
    };
    let raw = v.to_raw();
    assert_eq!(raw.position, [1.0f32.to_bits(), 2.0f32.to_bits(), 3.0f32.to_bits()]);
    assert_eq!(raw.texture_index, 9);
    assert_eq!(raw.texture_coords, [0.5f32.to_bits(), 0.25f32.to_bits()]);
    assert_eq!(
        raw.color,
        [0.1f32.to_bits(), 0.2f32.to_bits(), 0.3f32.to_bits(), 0.4f32.to_bits()]
    );
    let mut words = vec![77];
    raw.write_words(&mut words);
    assert_eq!(
        words,
        vec![
            77,
            1.0f32.to_bits(),
            2.0f32.to_bits(),
            3.0f32.to_bits(),
            9,
            0.5f32.to_bits(),
            0.25f32.to_bits(),
            0.1f32.to_bits(),
            0.2f32.to_bits(),
            0.3f32.to_bits(),
            0.4f32.to_bits(),
        ]
    );
}

#[test]
fn default_raw_vertex_is_all_zero() {
    let zero = VertexRaw::default();
    let mut words = Vec::new();
    zero.write_words(&mut words);
    assert_eq!(words, vec![0; 10]);
}
