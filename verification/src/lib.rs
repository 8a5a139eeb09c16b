//! Geometry batching for a small real-time 2D renderer.
//!
//! Shapes are turned into triangle fans, the fans of one frame are merged
//! into a single vertex/index stream, the stream is padded to the upload
//! granularity, and two growable device buffers are sized to receive it.
//! Beside that stand the texture bank, which resolves a closed set of named
//! textures to files and images, and the few decisions of the frame loop.
//!
//! Numbers with a fractional part are carried as bit patterns and never
//! computed with. Talking to the window system and to the graphics device
//! is left to the caller, who is told what to do and reports how it went.

pub mod buffer;
pub mod bytes;
pub mod color;
pub mod event_loop;
pub mod frame;
pub mod graphics;
pub mod interval;
pub mod padding;
pub mod pixels;
pub mod scalar;
pub mod shape;
pub mod surface;
pub mod texture;
pub mod vertex;

pub use color::Color;
pub use graphics::Graphics;
pub use interval::{now, Interval};
pub use padding::align;
pub use shape::{Geometry, Shape};
pub use vertex::{Vertex, VertexRaw};
