//! The bookkeeping of a 2D shape batcher: the indexed triangles of rectangles,
//! triangles, lines, line strips and polygons (by ear clipping), the points and
//! handles of Bezier splines, and the state machine that packs many draw calls into
//! fixed-size vertex and index buffers and a bounded table of texture slots, deciding
//! when they must be flushed to the device.
use vstd::prelude::*;

pub mod batch;
pub mod bezier;
pub mod camera;
pub mod controls;
pub mod frame;
pub mod grid;
pub mod registry;
pub mod shapes;
pub mod triangulation;
pub mod window_error;

verus! {

} // verus!
