//! Shapes and their conversion into triangle fans.

use vstd::multiset::Multiset;
use vstd::prelude::*;
use crate::color::Color;
use crate::scalar::{Point2, Point3, Scalar, HALF_BITS, MINUS_HALF_BITS, ONE_BITS, ZERO_BITS};
use crate::vertex::{Vertex, BLANK_TEXTURE};

verus! {

/// Vertices and the indices of the triangles drawn over them. The indices
/// count from the first vertex of the same batch.
pub type Geometry = (Vec<Vertex>, Vec<u32>);

/// Why a shape could not be built or emitted.
#[derive(Clone, Copy, Debug, PartialEq, Eq, Structural)]
pub enum ShapeError {
    /// The parameters describe no shape, such as a polygon of two sides.
    InvalidShapeDescriptor,
    /// The shape has fewer than three points and spans no triangle.
    InsufficientPoints,
}

/// An outline with one texture, one colour and one depth.
///
/// Each point is a position in the plane paired with its texture coordinate.
/// The first point is the apex that every emitted triangle shares.
#[derive(Clone, Debug, PartialEq, Eq)]
pub struct Shape {
    pub points: Vec<(Point2, Point2)>,
    pub texture: u32,
    pub color: Color,
    pub z: Scalar,
}

/// The corner with the given position and texture coordinate, both as bit
/// patterns.
pub open spec fn corner(x: u32, y: u32, u: u32, v: u32) -> (Point2, Point2) {
    (
        Point2 { x: Scalar { bits: x }, y: Scalar { bits: y } },
        Point2 { x: Scalar { bits: u }, y: Scalar { bits: v } },
    )
}

/// Corners of the square from (0, 0) to (1, 1); the texture covers it once.
pub open spec fn unit_square() -> Seq<(Point2, Point2)> {
    seq![
        corner(ZERO_BITS, ZERO_BITS, ZERO_BITS, ZERO_BITS),
        corner(ONE_BITS, ZERO_BITS, ONE_BITS, ZERO_BITS),
        corner(ONE_BITS, ONE_BITS, ONE_BITS, ONE_BITS),
        corner(ZERO_BITS, ONE_BITS, ZERO_BITS, ONE_BITS),
    ]
}

/// Corners of the square of side one around the origin.
pub open spec fn centered_square() -> Seq<(Point2, Point2)> {
    seq![
        corner(MINUS_HALF_BITS, MINUS_HALF_BITS, ZERO_BITS, ZERO_BITS),
        corner(HALF_BITS, MINUS_HALF_BITS, ONE_BITS, ZERO_BITS),
        corner(HALF_BITS, HALF_BITS, ONE_BITS, ONE_BITS),
        corner(MINUS_HALF_BITS, HALF_BITS, ZERO_BITS, ONE_BITS),
    ]
}

/// Corners of the triangle (0, 1/2), (-1/2, -1/2), (1/2, -1/2).
pub open spec fn unit_triangle() -> Seq<(Point2, Point2)> {
    seq![
        corner(ZERO_BITS, HALF_BITS, HALF_BITS, ONE_BITS),
        corner(MINUS_HALF_BITS, MINUS_HALF_BITS, ZERO_BITS, ZERO_BITS),
        corner(HALF_BITS, MINUS_HALF_BITS, ONE_BITS, ZERO_BITS),
    ]
}

/// The vertex emitted for one point of a shape with the given attributes.
pub open spec fn fan_vertex(point: (Point2, Point2), texture: u32, color: Color, z: Scalar)
    -> Vertex {
    Vertex {
        position: Point3 { x: point.0.x, y: point.0.y, z },
        texture,
        texture_coords: point.1,
        color,
    }
}

/// The vertices emitted for a shape: one per point, in order.
pub open spec fn fan_vertices(
    points: Seq<(Point2, Point2)>,
    texture: u32,
    color: Color,
    z: Scalar,
) -> Seq<Vertex> {
    Seq::new(points.len(), |i: int| fan_vertex(points[i], texture, color, z))
}

/// The `k`-th index of a fan: triangle `k / 3` joins the apex to the points
/// `k / 3 + 1` and `k / 3 + 2`.
pub open spec fn fan_index(k: int) -> int {
    if k % 3 == 0 {
        0
    } else if k % 3 == 1 {
        k / 3 + 1
    } else {
        k / 3 + 2
    }
}

/// The indices of the fan over `n` points: `n - 2` triangles, none below
/// three points.
pub open spec fn fan_indices(n: nat) -> Seq<u32> {
    if n < 3 {
        Seq::empty()
    } else {
        Seq::new((3 * (n - 2)) as nat, |k: int| fan_index(k) as u32)
    }
}

/// The fan over one more point is the old fan followed by one triangle.
proof fn lemma_fan_indices_step(n: nat)
    requires
        2 <= n < u32::MAX,
    ensures
        fan_indices(n + 1) == fan_indices(n).push(0u32).push((n - 1) as u32).push(n as u32),
{
    let longer = fan_indices(n + 1);
    let built = fan_indices(n).push(0u32).push((n - 1) as u32).push(n as u32);
    assert(longer.len() == built.len());
    assert forall|k: int| 0 <= k < longer.len() implies longer[k] == built[k] by {
        let last = 3 * (n - 2);
        if k == last {
            assert(fan_index(k) == 0);
        } else if k == last + 1 {
            assert(fan_index(k) == n - 1);
        } else if k == last + 2 {
            assert(fan_index(k) == n);
        }
    }
    assert(longer =~= built);
}

/// Shape of a fan: over `n` points it has `3 * (n - 2)` indices, each of them
/// names one of the `n` vertices, and the apex, index zero, occurs once per
/// triangle, `n - 2` times in all.
pub proof fn lemma_fan_indices(n: nat)
    requires
        3 <= n <= u32::MAX,
    ensures
        fan_indices(n).len() == 3 * (n - 2),
        forall|k: int| 0 <= k < fan_indices(n).len() ==> #[trigger] fan_indices(n)[k] < n,
        fan_indices(n).to_multiset().count(0u32) == n - 2,
    decreases n,
{
    broadcast use vstd::seq_lib::to_multiset_build;

    assert forall|k: int| 0 <= k < fan_indices(n).len() implies #[trigger] fan_indices(n)[k]
        < n by {
        assert(0 <= fan_index(k) < n);
    }
    lemma_fan_indices_step((n - 1) as nat);
    let shorter = fan_indices((n - 1) as nat);
    if n == 3 {
        assert(shorter =~= Seq::<u32>::empty());
        assert(shorter.to_multiset() =~= Multiset::<u32>::empty()) by {
            shorter.to_multiset_ensures();
        }
    } else {
        lemma_fan_indices((n - 1) as nat);
    }
    assert(shorter.to_multiset().count(0u32) == n - 3);
}

impl Shape {
    /// The white shape of the blank texture at depth zero with the given
    /// points.
    pub fn new(points: Vec<(Point2, Point2)>) -> (s: Shape)
        ensures
            s.points == points,
            s.texture == BLANK_TEXTURE,
            s.color == Color::white(),
            s.z.bits == ZERO_BITS,
    {
        Shape { points, texture: BLANK_TEXTURE, color: Color::white(), z: Scalar::zero() }
    }

    /// Accepts the side count of a regular polygon.
    pub fn check_sides(sides: usize) -> (r: Result<(), ShapeError>)
        ensures
            sides >= 3 ==> r == Ok::<(), ShapeError>(()),
            sides < 3 ==> r == Err::<(), ShapeError>(ShapeError::InvalidShapeDescriptor),
    {
        if sides >= 3 {
            Ok(())
        } else {
            Err(ShapeError::InvalidShapeDescriptor)
        }
    }

    /// The square with corners (0, 0) and (1, 1).
    pub fn from_square() -> (s: Shape)
        ensures
            s.points@ == unit_square(),
            s.texture == BLANK_TEXTURE,
            s.color == Color::white(),
            s.z.bits == ZERO_BITS,
    {
        let mut points: Vec<(Point2, Point2)> = Vec::new();
        points.push((Point2::from_bits(ZERO_BITS, ZERO_BITS), Point2::from_bits(ZERO_BITS, ZERO_BITS)));
        points.push((Point2::from_bits(ONE_BITS, ZERO_BITS), Point2::from_bits(ONE_BITS, ZERO_BITS)));
        points.push((Point2::from_bits(ONE_BITS, ONE_BITS), Point2::from_bits(ONE_BITS, ONE_BITS)));
        points.push((Point2::from_bits(ZERO_BITS, ONE_BITS), Point2::from_bits(ZERO_BITS, ONE_BITS)));
        assert(points@ =~= unit_square());
        Shape::new(points)
    }

    /// The square of side one whose centre is the origin.
    pub fn from_square_centered() -> (s: Shape)
        ensures
            s.points@ == centered_square(),
            s.texture == BLANK_TEXTURE,
            s.color == Color::white(),
            s.z.bits == ZERO_BITS,
    {
        let mut points: Vec<(Point2, Point2)> = Vec::new();
        points.push(
            (
                Point2::from_bits(MINUS_HALF_BITS, MINUS_HALF_BITS),
                Point2::from_bits(ZERO_BITS, ZERO_BITS),
            ),
        );
        points.push(
            (Point2::from_bits(HALF_BITS, MINUS_HALF_BITS), Point2::from_bits(ONE_BITS, ZERO_BITS)),
        );
        points.push((Point2::from_bits(HALF_BITS, HALF_BITS), Point2::from_bits(ONE_BITS, ONE_BITS)));
        points.push(
            (Point2::from_bits(MINUS_HALF_BITS, HALF_BITS), Point2::from_bits(ZERO_BITS, ONE_BITS)),
        );
        assert(points@ =~= centered_square());
        Shape::new(points)
    }

    /// The triangle with corners (0, 1/2), (-1/2, -1/2) and (1/2, -1/2).
    pub fn from_triangle() -> (s: Shape)
        ensures
            s.points@ == unit_triangle(),
            s.texture == BLANK_TEXTURE,
            s.color == Color::white(),
            s.z.bits == ZERO_BITS,
    {
        let mut points: Vec<(Point2, Point2)> = Vec::new();
        points.push((Point2::from_bits(ZERO_BITS, HALF_BITS), Point2::from_bits(HALF_BITS, ONE_BITS)));
        points.push(
            (
                Point2::from_bits(MINUS_HALF_BITS, MINUS_HALF_BITS),
                Point2::from_bits(ZERO_BITS, ZERO_BITS),
            ),
        );
        points.push(
            (Point2::from_bits(HALF_BITS, MINUS_HALF_BITS), Point2::from_bits(ONE_BITS, ZERO_BITS)),
        );
        assert(points@ =~= unit_triangle());
        Shape::new(points)
    }

    /// Moves every point through `transform`. Texture coordinates, texture,
    /// colour and depth stay as they are.
    pub fn apply<F: Fn(Point2) -> Point2>(self, transform: F) -> (s: Shape)
        requires
            forall|p: Point2| call_requires(transform, (p,)),
        ensures
            s.points@.len() == self.points@.len(),
            forall|i: int|
                0 <= i < self.points@.len() ==> call_ensures(
                    transform,
                    (self.points@[i].0,),
                    (#[trigger] s.points@[i]).0,
                ),
            forall|i: int|
                0 <= i < self.points@.len() ==> (#[trigger] s.points@[i]).1 == self.points@[i].1,
            s.texture == self.texture,
            s.color == self.color,
            s.z == self.z,
    {
        let mut moved: Vec<(Point2, Point2)> = Vec::new();
        let mut i: usize = 0;
        while i < self.points.len()
            invariant
                i <= self.points@.len(),
                moved@.len() == i,
                forall|p: Point2| call_requires(transform, (p,)),
                forall|j: int|
                    0 <= j < i ==> call_ensures(
                        transform,
                        (self.points@[j].0,),
                        (#[trigger] moved@[j]).0,
                    ),
                forall|j: int| 0 <= j < i ==> (#[trigger] moved@[j]).1 == self.points@[j].1,
            decreases self.points@.len() - i,
        {
            let (position, texture_coords) = self.points[i];
            let image = transform(position);
            moved.push((image, texture_coords));
            i += 1;
        }
        Shape { points: moved, texture: self.texture, color: self.color, z: self.z }
    }

    /// This shape drawn with the texture at `index`.
    pub fn set_texture(self, index: u32) -> (s: Shape)
        ensures
            s == (Shape { texture: index, ..self }),
    {
        Shape { points: self.points, texture: index, color: self.color, z: self.z }
    }

    /// This shape drawn with the blank texture.
    pub fn reset_texture(self) -> (s: Shape)
        ensures
            s == (Shape { texture: BLANK_TEXTURE, ..self }),
    {
        Shape { points: self.points, texture: BLANK_TEXTURE, color: self.color, z: self.z }
    }

    /// This shape in the colour `c`.
    pub fn set_color(self, c: Color) -> (s: Shape)
        ensures
            s == (Shape { color: c, ..self }),
    {
        Shape { points: self.points, texture: self.texture, color: c, z: self.z }
    }

    /// This shape at depth `z`.
    pub fn set_z(self, z: Scalar) -> (s: Shape)
        ensures
            s == (Shape { z, ..self }),
    {
        Shape { points: self.points, texture: self.texture, color: self.color, z }
    }

    /// Converts the shape into one vertex per point and the triangle fan
    /// around its first point.
    ///
    /// Every vertex carries the shape's texture, colour and depth. A shape of
    /// fewer than three points is refused.
    pub fn emit(self) -> (r: Result<Geometry, ShapeError>)
        requires
            self.points@.len() <= u32::MAX,
        ensures
            self.points@.len() < 3 ==> r == Err::<Geometry, ShapeError>(
                ShapeError::InsufficientPoints,
            ),
            self.points@.len() >= 3 ==> r is Ok && r->Ok_0.0@ == fan_vertices(
                self.points@,
                self.texture,
                self.color,
                self.z,
            ) && r->Ok_0.1@ == fan_indices(self.points@.len()),
    {
        let count: usize = self.points.len();
        if count < 3 {
            return Err(ShapeError::InsufficientPoints);
        }
        let mut vertices: Vec<Vertex> = Vec::new();
        vertices.push(self.vertex_at(0));
        vertices.push(self.vertex_at(1));
        let mut indices: Vec<u32> = Vec::new();
        let mut i: usize = 2;
        while i < count
            invariant
                2 <= i <= count,
                count == self.points@.len(),
                count <= u32::MAX,
                vertices@.len() == i,
                forall|j: int|
                    0 <= j < i ==> #[trigger] vertices@[j] == fan_vertex(
                        self.points@[j],
                        self.texture,
                        self.color,
                        self.z,
                    ),
                indices@.len() == 3 * (i - 2),
                forall|k: int| 0 <= k < indices@.len() ==> #[trigger] indices@[k] == fan_index(k),
            decreases count - i,
        {
            vertices.push(self.vertex_at(i));
            indices.push(0);
            indices.push((i - 1) as u32);
            indices.push(i as u32);
            i += 1;
        }
        assert(vertices@ =~= fan_vertices(self.points@, self.texture, self.color, self.z));
        assert(indices@ =~= fan_indices(self.points@.len()));
        Ok((vertices, indices))
    }

    /// The vertex emitted for the point at `i`.
    fn vertex_at(&self, i: usize) -> (v: Vertex)
        requires
            i < self.points@.len(),
        ensures
            v == fan_vertex(self.points@[i as int], self.texture, self.color, self.z),
    {
        let (position, texture_coords) = self.points[i];
        Vertex {
            position: Point3::at_depth(position, self.z),
            texture: self.texture,
            texture_coords,
            color: self.color,
        }
    }
}

} // verus!
