//! Accumulation of one frame's geometry into a single vertex/index stream.

use vstd::prelude::*;
use crate::padding::{align, padded};
use crate::shape::Geometry;
use crate::vertex::{raw_of, zero_raw, Vertex, VertexRaw};

verus! {

/// What a frame holds: the vertices of all batches so far, and their indices
/// counted from the first vertex of the frame.
pub struct FrameView {
    pub vertices: Seq<Vertex>,
    pub indices: Seq<u32>,
}

/// Every index names one of `count` vertices.
pub open spec fn indices_within(indices: Seq<u32>, count: nat) -> bool {
    forall|i: int| 0 <= i < indices.len() ==> #[trigger] indices[i] < count
}

/// The indices of a batch once `offset` vertices precede it.
pub open spec fn rebased(indices: Seq<u32>, offset: nat) -> Seq<u32> {
    Seq::new(indices.len(), |i: int| (indices[i] + offset) as u32)
}

/// The frame with no geometry.
pub open spec fn empty_frame() -> FrameView {
    FrameView { vertices: Seq::empty(), indices: Seq::empty() }
}

/// The frame after one more batch: its vertices follow those already there,
/// and its indices are shifted by the number of vertices already there.
pub open spec fn appended(frame: FrameView, vertices: Seq<Vertex>, indices: Seq<u32>)
    -> FrameView {
    FrameView {
        vertices: frame.vertices + vertices,
        indices: frame.indices + rebased(indices, frame.vertices.len()),
    }
}

/// The frame that holds the given batches, merged in order. A batch is its
/// vertices paired with its indices.
pub open spec fn merged(batches: Seq<(Seq<Vertex>, Seq<u32>)>) -> FrameView
    decreases batches.len(),
{
    if batches.len() == 0 {
        empty_frame()
    } else {
        appended(merged(batches.drop_last()), batches.last().0, batches.last().1)
    }
}

/// Where each batch ends up in a merged frame.
///
/// The vertices of batch `k` stand unchanged behind those of the batches
/// before it, and its indices stand behind theirs, each raised by the number
/// of vertices that those earlier batches hold.
pub proof fn lemma_merged_batch(batches: Seq<(Seq<Vertex>, Seq<u32>)>, k: int)
    requires
        0 <= k < batches.len(),
    ensures
        ({
            let before = merged(batches.take(k));
            let all = merged(batches);
            let vertex_start = before.vertices.len() as int;
            let index_start = before.indices.len() as int;
            &&& vertex_start + batches[k].0.len() <= all.vertices.len()
            &&& index_start + batches[k].1.len() <= all.indices.len()
            &&& all.vertices.subrange(vertex_start, vertex_start + batches[k].0.len())
                == batches[k].0
            &&& all.indices.subrange(index_start, index_start + batches[k].1.len()) == rebased(
                batches[k].1,
                before.vertices.len(),
            )
        }),
    decreases batches.len(),
{
    let before = merged(batches.take(k));
    let all = merged(batches);
    let earlier = batches.drop_last();
    let vertex_start = before.vertices.len() as int;
    let index_start = before.indices.len() as int;
    if k == batches.len() - 1 {
        assert(batches.take(k) =~= earlier);
        assert(all.vertices.subrange(vertex_start, vertex_start + batches[k].0.len())
            =~= batches[k].0);
        assert(all.indices.subrange(index_start, index_start + batches[k].1.len()) =~= rebased(
            batches[k].1,
            before.vertices.len(),
        ));
    } else {
        lemma_merged_batch(earlier, k);
        assert(earlier.take(k) =~= batches.take(k));
        assert(earlier[k] == batches[k]);
        let prev = merged(earlier);
        assert(all.vertices.subrange(vertex_start, vertex_start + batches[k].0.len())
            =~= prev.vertices.subrange(vertex_start, vertex_start + batches[k].0.len()));
        assert(all.indices.subrange(index_start, index_start + batches[k].1.len())
            =~= prev.indices.subrange(index_start, index_start + batches[k].1.len()));
    }
}

/// Three batches merged into an empty frame: the indices of the first stay,
/// those of the second rise by the vertex count of the first, those of the
/// third by the vertex counts of the first and the second together.
pub proof fn lemma_three_batches(
    first: (Seq<Vertex>, Seq<u32>),
    second: (Seq<Vertex>, Seq<u32>),
    third: (Seq<Vertex>, Seq<u32>),
)
    ensures
        ({
            let frame = appended(
                appended(appended(empty_frame(), first.0, first.1), second.0, second.1),
                third.0,
                third.1,
            );
            &&& frame == merged(seq![first, second, third])
            &&& frame.vertices == first.0 + second.0 + third.0
            &&& frame.indices == first.1 + rebased(second.1, first.0.len()) + rebased(
                third.1,
                first.0.len() + second.0.len(),
            )
        }),
{
    let one = appended(empty_frame(), first.0, first.1);
    let two = appended(one, second.0, second.1);
    let three = appended(two, third.0, third.1);
    let batches = seq![first, second, third];
    assert(batches.drop_last() =~= seq![first, second]);
    assert(batches.drop_last().drop_last() =~= seq![first]);
    assert(batches.drop_last().drop_last().drop_last() =~= Seq::empty());
    assert(merged(seq![first]) == one) by {
        assert(seq![first].drop_last() =~= Seq::empty());
        assert(merged(seq![first].drop_last()) == empty_frame());
    }
    assert(merged(seq![first, second]) == two) by {
        assert(seq![first, second].drop_last() =~= seq![first]);
    }
    assert(merged(batches) == three);
    assert(one.vertices =~= first.0);
    assert(one.indices =~= first.1);
    assert(three.vertices =~= first.0 + second.0 + third.0);
    assert(three.indices =~= first.1 + rebased(second.1, first.0.len()) + rebased(
        third.1,
        first.0.len() + second.0.len(),
    ));
}

/// A frame is sound when its indices name its own vertices and both counts
/// fit the 32-bit indices of the draw call.
pub open spec fn frame_sound(frame: FrameView) -> bool {
    &&& frame.vertices.len() <= u32::MAX
    &&& frame.indices.len() <= u32::MAX
    &&& indices_within(frame.indices, frame.vertices.len())
}

/// A batch fits a frame when its indices name its own vertices and the
/// merged counts still fit in 32 bits.
pub open spec fn batch_fits(frame: FrameView, vertices: Seq<Vertex>, indices: Seq<u32>) -> bool {
    &&& indices_within(indices, vertices.len())
    &&& frame.vertices.len() + vertices.len() <= u32::MAX
    &&& frame.indices.len() + indices.len() <= u32::MAX
}

/// The geometry of the frame being built.
#[derive(Debug, PartialEq, Eq)]
pub struct FrameAccumulator {
    vertices: Vec<Vertex>,
    indices: Vec<u32>,
}

/// A finished frame, padded for upload.
#[derive(Clone, Debug, PartialEq, Eq)]
pub struct FinalizedFrame {
    /// The vertices in device layout, padded with zero vertices.
    pub vertices: Vec<VertexRaw>,
    /// The indices, padded with zeros.
    pub indices: Vec<u32>,
    /// The number of indices to draw; the padding is not among them.
    pub index_count: u32,
}

impl View for FrameAccumulator {
    type V = FrameView;

    closed spec fn view(&self) -> FrameView {
        FrameView { vertices: self.vertices@, indices: self.indices@ }
    }
}

impl FrameAccumulator {
    /// The accumulated frame is sound at all times.
    #[verifier::type_invariant]
    spec fn sound(&self) -> bool {
        frame_sound(self@)
    }

    /// An accumulator with no geometry.
    pub fn new() -> (frame: FrameAccumulator)
        ensures
            frame@ == empty_frame(),
    {
        FrameAccumulator { vertices: Vec::new(), indices: Vec::new() }
    }

    /// The vertices accumulated so far.
    pub fn vertices(&self) -> (v: &Vec<Vertex>)
        ensures
            v@ == self@.vertices,
            frame_sound(self@),
    {
        proof {
            use_type_invariant(self);
        }
        &self.vertices
    }

    /// The indices accumulated so far. Each of them names one of the
    /// accumulated vertices.
    pub fn indices(&self) -> (v: &Vec<u32>)
        ensures
            v@ == self@.indices,
            frame_sound(self@),
    {
        proof {
            use_type_invariant(self);
        }
        &self.indices
    }

    /// Tells whether `geometry` may be appended.
    pub fn accepts(&self, geometry: &Geometry) -> (ok: bool)
        ensures
            ok == batch_fits(self@, geometry.0@, geometry.1@),
    {
        proof {
            use_type_invariant(self);
        }
        let limit: usize = u32::MAX as usize;
        let count: usize = geometry.0.len();
        if count > limit - self.vertices.len() || geometry.1.len() > limit - self.indices.len() {
            return false;
        }
        let mut i: usize = 0;
        while i < geometry.1.len()
            invariant
                i <= geometry.1@.len(),
                count == geometry.0@.len(),
                forall|j: int| 0 <= j < i ==> #[trigger] geometry.1@[j] < count,
            decreases geometry.1@.len() - i,
        {
            if geometry.1[i] as usize >= count {
                return false;
            }
            i += 1;
        }
        true
    }

    /// Merges one batch into the frame.
    ///
    /// The vertices are appended as they are. Each index is raised by the
    /// number of vertices that the frame held before, so that it names the
    /// same vertex in the merged stream.
    pub fn append(&mut self, geometry: Geometry)
        requires
            batch_fits(old(self)@, geometry.0@, geometry.1@),
        ensures
            final(self)@ == appended(old(self)@, geometry.0@, geometry.1@),
    {
        proof {
            use_type_invariant(&*self);
        }
        let (mut batch_vertices, batch_indices) = geometry;
        let ghost target = appended(old(self)@, batch_vertices@, batch_indices@);
        let ghost count = batch_vertices@.len();
        // The accumulated arrays are taken out, extended, and put back, the
        // indices leaving first and returning last: at every step the
        // indices still inside name vertices that are inside.
        let mut indices: Vec<u32> = Vec::new();
        core::mem::swap(&mut self.indices, &mut indices);
        let mut vertices: Vec<Vertex> = Vec::new();
        core::mem::swap(&mut self.vertices, &mut vertices);
        let offset: u32 = vertices.len() as u32;
        vertices.append(&mut batch_vertices);
        let mut i: usize = 0;
        while i < batch_indices.len()
            invariant
                i <= batch_indices@.len(),
                offset == old(self)@.vertices.len(),
                indices_within(batch_indices@, count),
                offset + count <= u32::MAX,
                target.indices == old(self)@.indices + rebased(batch_indices@, offset as nat),
                indices@ == target.indices.take(old(self)@.indices.len() + i),
            decreases batch_indices@.len() - i,
        {
            let index: u32 = batch_indices[i];
            indices.push(index + offset);
            assert(indices@ =~= target.indices.take(old(self)@.indices.len() + i + 1));
            i += 1;
        }
        assert(indices@ =~= target.indices);
        assert(indices_within(indices@, vertices@.len())) by {
            assert forall|k: int| 0 <= k < indices@.len() implies #[trigger] indices@[k]
                < vertices@.len() by {
                if k >= old(self)@.indices.len() {
                    let j = k - old(self)@.indices.len();
                    assert(batch_indices@[j] < count);
                }
            }
        }
        core::mem::swap(&mut self.vertices, &mut vertices);
        core::mem::swap(&mut self.indices, &mut indices);
    }

    /// Ends the frame: hands out its vertices in device layout and its
    /// indices, both padded to a multiple of four elements, and leaves the
    /// accumulator empty for the next frame.
    ///
    /// The padding is zero-valued and lies beyond `index_count`, so no drawn
    /// index is a padding element, and every drawn index names a vertex that
    /// was submitted, never a padding vertex.
    pub fn finalize(&mut self) -> (frame: FinalizedFrame)
        ensures
            frame.vertices@ == padded(old(self)@.vertices.map_values(|v: Vertex| raw_of(v)), zero_raw()),
            frame.indices@ == padded(old(self)@.indices, 0u32),
            frame.index_count == old(self)@.indices.len(),
            forall|i: int|
                0 <= i < frame.index_count ==> #[trigger] frame.indices@[i] < old(
                    self,
                )@.vertices.len(),
            final(self)@ == empty_frame(),
    {
        proof {
            use_type_invariant(&*self);
        }
        let mut indices: Vec<u32> = Vec::new();
        core::mem::swap(&mut self.indices, &mut indices);
        let mut submitted: Vec<Vertex> = Vec::new();
        core::mem::swap(&mut self.vertices, &mut submitted);
        let index_count: u32 = indices.len() as u32;
        let mut vertices: Vec<VertexRaw> = Vec::new();
        let mut i: usize = 0;
        while i < submitted.len()
            invariant
                i <= submitted@.len(),
                vertices@ == submitted@.map_values(|v: Vertex| raw_of(v)).take(i as int),
            decreases submitted@.len() - i,
        {
            vertices.push(submitted[i].to_raw());
            assert(vertices@ =~= submitted@.map_values(|v: Vertex| raw_of(v)).take(i + 1));
            i += 1;
        }
        assert(vertices@ =~= old(self)@.vertices.map_values(|v: Vertex| raw_of(v)));
        let ghost unpadded_vertices = vertices@;
        let ghost unpadded_indices = indices@;
        align(&mut vertices);
        align(&mut indices);
        assert(vertices@ =~= padded(unpadded_vertices, zero_raw()));
        assert(indices@ =~= padded(unpadded_indices, 0u32));
        FinalizedFrame { vertices, indices, index_count }
    }
}

} // verus!
