//! The per-frame state of the renderer: the geometry submitted so far and
//! the sizes of the two device buffers that receive it.

use vstd::prelude::*;
use crate::buffer::{
    growth_finished, upload_begun, BufferError, BufferPhase, BufferView, GrowableBuffer,
    UploadStep,
};
use crate::bytes::{is_memory_image, memory_image};
use crate::frame::{appended, batch_fits, empty_frame, frame_sound, FrameAccumulator, FrameView};
use crate::padding::{padded, padded_len};
use crate::shape::Geometry;
use crate::vertex::{pack_vertices, raw_of, stream_words, zero_raw, Vertex};

verus! {

/// Bytes in the vertex buffer at start: room for a thousand vertices.
pub const VERTEX_BUFFER_INIT_SIZE: u64 = 40_000;

/// Bytes in the index buffer at start: room for three hundred indices.
pub const INDEX_BUFFER_INIT_SIZE: u64 = 1_200;

/// One of the two device buffers.
#[derive(Clone, Copy, Debug, PartialEq, Eq, Structural)]
pub enum BufferKind {
    Vertex,
    Index,
}

/// The state of the renderer between two calls.
pub struct GraphicsView {
    /// Width and height of the surface in pixels.
    pub size: (u32, u32),
    /// The geometry submitted since the last upload.
    pub frame: FrameView,
    pub vertex_buffer: BufferView,
    pub index_buffer: BufferView,
    /// How many indices the last upload asks to draw.
    pub num_indices: u32,
}

/// What one frame sends to the device.
#[derive(Debug, PartialEq, Eq)]
pub struct FrameUpload {
    /// The padded vertices, as the bytes the device reads.
    pub vertex_bytes: Vec<u8>,
    /// The padded indices, as the bytes the device reads.
    pub index_bytes: Vec<u8>,
    /// How the vertex bytes get into the vertex buffer.
    pub vertex_step: Result<UploadStep, BufferError>,
    /// How the index bytes get into the index buffer.
    pub index_step: Result<UploadStep, BufferError>,
    /// The number of indices to draw, from the first on.
    pub num_indices: u32,
}

/// The renderer's state on the host side.
#[derive(Debug)]
pub struct Graphics {
    size: (u32, u32),
    frame: FrameAccumulator,
    vertex_buffer: GrowableBuffer,
    index_buffer: GrowableBuffer,
    num_indices: u32,
}

impl View for Graphics {
    type V = GraphicsView;

    closed spec fn view(&self) -> GraphicsView {
        GraphicsView {
            size: self.size,
            frame: self.frame@,
            vertex_buffer: self.vertex_buffer@,
            index_buffer: self.index_buffer@,
            num_indices: self.num_indices,
        }
    }
}

/// The words that the vertices of `frame` upload as: each vertex in device
/// layout, zero vertices as padding, ten words a vertex.
pub open spec fn vertex_payload(frame: FrameView) -> Seq<u32> {
    stream_words(padded(frame.vertices.map_values(|v: Vertex| raw_of(v)), zero_raw()))
}

/// The words that the indices of `frame` upload as, zeros as padding.
pub open spec fn index_payload(frame: FrameView) -> Seq<u32> {
    padded(frame.indices, 0u32)
}

/// Padding is uploaded but never drawn.
///
/// The payloads of a sound frame are a whole number of groups long. The
/// indices that are drawn, the first `frame.indices.len()` of the payload,
/// are the frame's own, and each names a vertex that was submitted: none
/// names a padding vertex, and no padding index is among them.
pub proof fn lemma_padding_is_never_drawn(frame: FrameView)
    requires
        frame_sound(frame),
    ensures
        index_payload(frame).len() == padded_len(frame.indices.len()),
        vertex_payload(frame).len() == 10 * padded_len(frame.vertices.len()),
        forall|i: int|
            0 <= i < frame.indices.len() ==> (#[trigger] index_payload(frame)[i])
                == frame.indices[i] && index_payload(frame)[i] < frame.vertices.len(),
        forall|i: int|
            frame.indices.len() <= i < index_payload(frame).len() ==> #[trigger] index_payload(
                frame,
            )[i] == 0,
{
}

impl Graphics {
    /// The state for a surface of the given size, with no geometry and both
    /// buffers at their initial sizes.
    pub fn new(width: u32, height: u32) -> (graphics: Graphics)
        ensures
            graphics@ == (GraphicsView {
                size: (width, height),
                frame: empty_frame(),
                vertex_buffer: BufferView {
                    capacity: VERTEX_BUFFER_INIT_SIZE,
                    phase: BufferPhase::Sized,
                },
                index_buffer: BufferView {
                    capacity: INDEX_BUFFER_INIT_SIZE,
                    phase: BufferPhase::Sized,
                },
                num_indices: 0,
            }),
    {
        Graphics {
            size: (width, height),
            frame: FrameAccumulator::new(),
            vertex_buffer: GrowableBuffer::new(VERTEX_BUFFER_INIT_SIZE),
            index_buffer: GrowableBuffer::new(INDEX_BUFFER_INIT_SIZE),
            num_indices: 0,
        }
    }

    /// Width and height of the surface.
    pub fn size(&self) -> (size: (u32, u32))
        ensures
            size == self@.size,
    {
        self.size
    }

    /// The number of indices that the last upload asks to draw.
    pub fn num_indices(&self) -> (n: u32)
        ensures
            n == self@.num_indices,
    {
        self.num_indices
    }

    /// The geometry submitted since the last upload. It is sound at all
    /// times: every index names a submitted vertex.
    pub fn frame(&self) -> (frame: &FrameAccumulator)
        ensures
            frame@ == self@.frame,
            frame_sound(self@.frame),
    {
        let _ = self.frame.indices();
        &self.frame
    }

    /// The bookkeeping of one of the two buffers.
    pub fn buffer(&self, kind: BufferKind) -> (buffer: &GrowableBuffer)
        ensures
            kind == BufferKind::Vertex ==> buffer@ == self@.vertex_buffer,
            kind == BufferKind::Index ==> buffer@ == self@.index_buffer,
    {
        match kind {
            BufferKind::Vertex => &self.vertex_buffer,
            BufferKind::Index => &self.index_buffer,
        }
    }

    /// Tells whether `geometry` may be added to the frame.
    pub fn accepts(&self, geometry: &Geometry) -> (ok: bool)
        ensures
            ok == batch_fits(self@.frame, geometry.0@, geometry.1@),
    {
        self.frame.accepts(geometry)
    }

    /// Adds the geometry of one object to the frame. Its indices are raised
    /// by the number of vertices submitted before it.
    pub fn add_geometry(&mut self, geometry: Geometry)
        requires
            batch_fits(old(self)@.frame, geometry.0@, geometry.1@),
        ensures
            final(self)@ == (GraphicsView {
                frame: appended(old(self)@.frame, geometry.0@, geometry.1@),
                ..old(self)@
            }),
    {
        self.frame.append(geometry);
    }

    /// Takes note of a new surface size. A size with a zero side is ignored.
    /// Returns whether the size was taken, in which case the surface and its
    /// depth target have to be rebuilt at that size.
    pub fn resize(&mut self, width: u32, height: u32) -> (taken: bool)
        ensures
            taken == (width != 0 && height != 0),
            taken ==> final(self)@ == (GraphicsView { size: (width, height), ..old(self)@ }),
            !taken ==> final(self)@ == old(self)@,
    {
        if width == 0 || height == 0 {
            return false;
        }
        self.size = (width, height);
        true
    }

    /// Ends the frame and prepares its upload.
    ///
    /// The submitted vertices and indices are padded to a multiple of four
    /// elements and turned into bytes, each buffer decides whether it has to
    /// grow to receive them, the number of indices to draw is recorded, and
    /// the frame is left empty.
    pub fn update(&mut self) -> (upload: FrameUpload)
        ensures
            is_memory_image(vertex_payload(old(self)@.frame), upload.vertex_bytes@),
            is_memory_image(index_payload(old(self)@.frame), upload.index_bytes@),
            upload.vertex_bytes@.len() == 40 * padded_len(old(self)@.frame.vertices.len()),
            upload.index_bytes@.len() == 4 * padded_len(old(self)@.frame.indices.len()),
            upload.num_indices == old(self)@.frame.indices.len(),
            upload_begun(
                old(self)@.vertex_buffer,
                upload.vertex_bytes@.len() as u64,
                final(self)@.vertex_buffer,
                upload.vertex_step,
            ),
            upload_begun(
                old(self)@.index_buffer,
                upload.index_bytes@.len() as u64,
                final(self)@.index_buffer,
                upload.index_step,
            ),
            final(self)@.frame == empty_frame(),
            final(self)@.num_indices == upload.num_indices,
            final(self)@.size == old(self)@.size,
    {
        let frame = self.frame.finalize();
        self.num_indices = frame.index_count;
        let vertex_words = pack_vertices(&frame.vertices);
        let vertex_bytes = memory_image(&vertex_words);
        let index_bytes = memory_image(&frame.indices);
        let vertex_step = self.vertex_buffer.begin_upload(vertex_bytes.len() as u64);
        let index_step = self.index_buffer.begin_upload(index_bytes.len() as u64);
        FrameUpload {
            vertex_bytes,
            index_bytes,
            vertex_step,
            index_step,
            num_indices: frame.index_count,
        }
    }

    /// Records how the reallocation of one buffer ended. Neither buffer
    /// ever gets smaller.
    pub fn finish_growth(&mut self, kind: BufferKind, allocated: bool) -> (answer: Result<
        (),
        BufferError,
    >)
        ensures
            kind == BufferKind::Vertex ==> growth_finished(
                old(self)@.vertex_buffer,
                allocated,
                final(self)@.vertex_buffer,
                answer,
            ) && final(self)@ == (GraphicsView {
                vertex_buffer: final(self)@.vertex_buffer,
                ..old(self)@
            }),
            kind == BufferKind::Index ==> growth_finished(
                old(self)@.index_buffer,
                allocated,
                final(self)@.index_buffer,
                answer,
            ) && final(self)@ == (GraphicsView {
                index_buffer: final(self)@.index_buffer,
                ..old(self)@
            }),
            final(self)@.vertex_buffer.capacity >= old(self)@.vertex_buffer.capacity,
            final(self)@.index_buffer.capacity >= old(self)@.index_buffer.capacity,
    {
        match kind {
            BufferKind::Vertex => self.vertex_buffer.finish_growth(allocated),
            BufferKind::Index => self.index_buffer.finish_growth(allocated),
        }
    }
}

} // verus!
