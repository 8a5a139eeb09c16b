//! Vertices, their device layout, and the packing of that layout into words.

use vstd::prelude::*;
use crate::color::Color;
use crate::scalar::{Point2, Point3};

verus! {

/// Number of 32-bit words in the device layout of one vertex.
pub const VERTEX_WORDS: usize = 10;

/// Number of bytes in the device layout of one vertex.
pub const VERTEX_BYTES: usize = 40;

/// Texture index of the blank entry that untextured shapes refer to.
pub const BLANK_TEXTURE: u32 = 0;

/// One corner of a triangle, as the emitter produces it.
#[derive(Clone, Copy, Debug, PartialEq, Eq, Structural)]
pub struct Vertex {
    pub position: Point3,
    pub texture: u32,
    pub texture_coords: Point2,
    pub color: Color,
}

/// A vertex in the layout the device reads: position as three numbers, the
/// texture index as an unsigned integer, the texture coordinate as two
/// numbers and the colour as four, each 32 bits wide and in this order.
#[derive(Clone, Copy, Debug, PartialEq, Eq)]
pub struct VertexRaw {
    pub position: [u32; 3],
    pub texture_index: u32,
    pub texture_coords: [u32; 2],
    pub color: [u32; 4],
}

/// The device layout of `v`.
pub open spec fn raw_of(v: Vertex) -> VertexRaw {
    VertexRaw {
        position: [v.position.x.bits, v.position.y.bits, v.position.z.bits],
        texture_index: v.texture,
        texture_coords: [v.texture_coords.x.bits, v.texture_coords.y.bits],
        color: [v.color.r.bits, v.color.g.bits, v.color.b.bits, v.color.a.bits],
    }
}

/// The vertex whose ten words are all zero; it fills the padding.
pub open spec fn zero_raw() -> VertexRaw {
    VertexRaw {
        position: [0u32, 0u32, 0u32],
        texture_index: 0u32,
        texture_coords: [0u32, 0u32],
        color: [0u32, 0u32, 0u32, 0u32],
    }
}

/// The ten words of one vertex, in device order.
pub open spec fn raw_words(r: VertexRaw) -> Seq<u32> {
    r.position@ + seq![r.texture_index] + r.texture_coords@ + r.color@
}

/// The words of a run of vertices, one vertex after the other.
pub open spec fn stream_words(vs: Seq<VertexRaw>) -> Seq<u32> {
    Seq::new(vs.len() * 10, |k: int| raw_words(vs[k / 10])[k % 10])
}

impl Vertex {
    /// A white vertex of the blank texture at `position`.
    pub fn new(position: Point3, texture_coords: Point2) -> (v: Vertex)
        ensures
            v.position == position,
            v.texture_coords == texture_coords,
            v.texture == BLANK_TEXTURE,
            v.color == Color::white(),
    {
        Vertex { position, texture: BLANK_TEXTURE, texture_coords, color: Color::white() }
    }

    /// The device layout of this vertex.
    pub fn to_raw(self) -> (r: VertexRaw)
        ensures
            r == raw_of(self),
    {
        VertexRaw {
            position: [self.position.x.bits, self.position.y.bits, self.position.z.bits],
            texture_index: self.texture,
            texture_coords: [self.texture_coords.x.bits, self.texture_coords.y.bits],
            color: [self.color.r.bits, self.color.g.bits, self.color.b.bits, self.color.a.bits],
        }
    }
}

impl Default for VertexRaw {
    fn default() -> (r: VertexRaw)
        ensures
            r == zero_raw(),
    {
        VertexRaw {
            position: [0, 0, 0],
            texture_index: 0,
            texture_coords: [0, 0],
            color: [0, 0, 0, 0],
        }
    }
}

impl VertexRaw {
    /// Appends the ten words of this vertex to `out`.
    pub fn write_words(&self, out: &mut Vec<u32>)
        ensures
            final(out)@ == old(out)@ + raw_words(*self),
    {
        out.push(self.position[0]);
        out.push(self.position[1]);
        out.push(self.position[2]);
        out.push(self.texture_index);
        out.push(self.texture_coords[0]);
        out.push(self.texture_coords[1]);
        out.push(self.color[0]);
        out.push(self.color[1]);
        out.push(self.color[2]);
        out.push(self.color[3]);
        assert(out@ =~= old(out)@ + raw_words(*self));
    }
}

/// Every vertex has exactly ten words.
pub proof fn lemma_raw_words_len(r: VertexRaw)
    ensures
        raw_words(r).len() == 10,
{
}

/// Packs a run of vertices into the words the device reads.
pub fn pack_vertices(vertices: &Vec<VertexRaw>) -> (words: Vec<u32>)
    ensures
        words@ == stream_words(vertices@),
{
    let mut words: Vec<u32> = Vec::new();
    let mut i: usize = 0;
    while i < vertices.len()
        invariant
            i <= vertices.len(),
            words@ == stream_words(vertices@.take(i as int)),
        decreases vertices.len() - i,
    {
        let ghost before = words@;
        vertices[i].write_words(&mut words);
        proof {
            let prefix = vertices@.take(i as int);
            let longer = vertices@.take(i + 1);
            lemma_raw_words_len(vertices@[i as int]);
            assert(longer.len() == i + 1);
            assert forall|k: int| 0 <= k < (i + 1) * 10 implies (before + raw_words(
                vertices@[i as int],
            ))[k] == stream_words(longer)[k] by {
                if k < i * 10 {
                    assert(k / 10 < i);
                    assert(prefix[k / 10] == longer[k / 10]);
                } else {
                    assert(k / 10 == i);
                    assert(k % 10 == k - i * 10);
                }
            }
            assert(words@ =~= stream_words(longer));
        }
        i += 1;
    }
    assert(vertices@.take(i as int) =~= vertices@);
    words
}

} // verus!
