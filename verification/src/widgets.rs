//! The widget abstraction — bounding box, event intake, render contract —
//! and its one concrete variant, the axis-aligned rectangle.

use vstd::prelude::*;

use crate::context::RenderContext;
use crate::geometry::{spec_quad_corners, quad_corners, BufferId, BufferRecord};
use crate::math::COORD_LIMIT;
use crate::pass::{DrawCall, RenderPass};

verus! {

/// An input event a widget may react to.  The set is extensible;
/// variants a widget does not handle are silently ignored.
#[non_exhaustive]
#[derive(Clone, Copy, PartialEq, Eq, Structural, Debug)]
pub enum Event {
    MouseEnter,
    MouseExit,
    Clicked,
}

/// A widget's bounding box in logical window coordinates, recomputed on
/// demand for hit-testing and never persisted.
#[derive(Clone, Copy, PartialEq, Eq, Structural, Debug)]
pub struct Bounds {
    pub x: i64,
    pub y: i64,
    pub width: i64,
    pub height: i64,
}

impl Bounds {
    /// Coordinates within the engine's logical range, with non-negative
    /// extent.
    pub open spec fn wf(self) -> bool {
        &&& -COORD_LIMIT <= self.x <= COORD_LIMIT
        &&& -COORD_LIMIT <= self.y <= COORD_LIMIT
        &&& 0 <= self.width <= COORD_LIMIT
        &&& 0 <= self.height <= COORD_LIMIT
    }

    /// Whether the point `(x, y)` lies inside this box, edges included.
    pub fn is_inside(&self, x: i64, y: i64) -> (r: bool)
        requires
            self.wf(),
        ensures
            r == (self.x <= x <= self.x + self.width && self.y <= y <= self.y + self.height),
    {
        x >= self.x && x <= self.x + self.width && y >= self.y && y <= self.y + self.height
    }
}

/// The capability contract every drawable shape offers: a bounding box,
/// event intake, and rendering into a pass.
pub trait Widget: Sized {
    /// The shape's validity: what its constructor establishes and every
    /// operation preserves.
    spec fn wf(&self) -> bool;

    /// The bounding box `bounds` returns.
    spec fn spec_bounds(&self) -> Bounds;

    /// The draw calls one `render` appends, in order.
    spec fn draw_calls(&self) -> Seq<DrawCall>;

    /// The shape's current bounding box.
    fn bounds(&self) -> (b: Bounds)
        requires
            self.wf(),
        ensures
            b == self.spec_bounds(),
    ;

    /// Hands the shape one input event.  No shape of this engine reacts
    /// to any yet, so the shape is left exactly as it was.
    fn process_event(&mut self, event: &Event)
        requires
            old(self).wf(),
        ensures
            *final(self) == *old(self),
    ;

    /// Binds the shape's buffers and issues its draw calls into `pass`,
    /// leaving everything else about the pass as it was.
    fn render(&self, pass: &mut RenderPass)
        requires
            self.wf(),
            old(pass).draws@.len() + self.draw_calls().len() <= usize::MAX,
        ensures
            final(pass).draws@ == old(pass).draws@ + self.draw_calls(),
            final(pass).clear == old(pass).clear,
            final(pass).pipeline_bound == old(pass).pipeline_bound,
            final(pass).group0_bound == old(pass).group0_bound,
            final(pass).text_batches == old(pass).text_batches,
    ;
}

/// An axis-aligned rectangle at `(x, y)` with extent `(width, height)`,
/// in logical units, owning its per-instance vertex buffer and holding
/// the handle of the shared quad index buffer.  Never mutated after
/// construction.
#[derive(Clone, Copy, PartialEq, Eq, Structural, Debug)]
pub struct Rect {
    pub x: i64,
    pub y: i64,
    pub width: i64,
    pub height: i64,
    /// This rectangle's own vertex buffer: its four corners.
    pub vertex_buffer: BufferId,
    /// The shared quad index buffer, guaranteed allocated at construction.
    pub shared_index: BufferId,
}

impl Rect {
    /// Creates a rectangle: allocates its vertex buffer with the four
    /// corner points in the fixed winding order, and makes sure the
    /// shared quad index buffer exists, allocating it only if this is
    /// the first shape.
    pub fn new(
        x: i64,
        y: i64,
        width: i64,
        height: i64,
        render_context: &mut RenderContext,
    ) -> (r: Rect)
        requires
            old(render_context).wf(),
            old(render_context).cache.buffers@.len() + 2 <= usize::MAX,
            -COORD_LIMIT <= x <= COORD_LIMIT,
            -COORD_LIMIT <= y <= COORD_LIMIT,
            0 <= width <= COORD_LIMIT,
            0 <= height <= COORD_LIMIT,
        ensures
            final(render_context).wf(),
            r.x == x,
            r.y == y,
            r.width == width,
            r.height == height,
            r.wf(),
            // the fresh vertex buffer and its contents
            r.vertex_buffer.id == old(render_context).cache.buffers@.len(),
            final(render_context).cache.buffers@[r.vertex_buffer.id as int] matches
                BufferRecord::Vertex { vertices } && vertices@ == spec_quad_corners(
                x as int,
                y as int,
                width as int,
                height as int,
            ),
            // the shared index buffer exists afterwards and r holds it
            final(render_context).cache.shared_index == Some(r.shared_index),
            // allocation accounting: one fresh buffer, plus the shared one
            // only when this is the first shape
            old(render_context).cache.shared_index matches Some(prior) ==> {
                &&& r.shared_index == prior
                &&& final(render_context).cache.buffers@.len()
                    == old(render_context).cache.buffers@.len() + 1
            },
            old(render_context).cache.shared_index is None ==> {
                &&& r.shared_index.id == old(render_context).cache.buffers@.len() + 1
                &&& final(render_context).cache.buffers@.len()
                    == old(render_context).cache.buffers@.len() + 2
            },
            forall|i: int|
                0 <= i < old(render_context).cache.buffers@.len()
                    ==> final(render_context).cache.buffers@[i]
                    == old(render_context).cache.buffers@[i],
            // nothing else about the context changes
            final(render_context).surface_config == old(render_context).surface_config,
            final(render_context).window_width == old(render_context).window_width,
            final(render_context).window_height == old(render_context).window_height,
            final(render_context).pipeline == old(render_context).pipeline,
            final(render_context).window_bind_group == old(render_context).window_bind_group,
            final(render_context).text == old(render_context).text,
    {
        let corners = quad_corners(x, y, width, height);
        let vertex_buffer = render_context.cache.make_vertex_buffer(corners);
        let shared_index = render_context.cache.ensure_shared_index_buffer();
        Rect { x, y, width, height, vertex_buffer, shared_index }
    }
}

impl Widget for Rect {
    /// A rectangle is valid when its geometry lies in the engine's
    /// logical coordinate range.
    open spec fn wf(&self) -> bool {
        &&& -COORD_LIMIT <= self.x <= COORD_LIMIT
        &&& -COORD_LIMIT <= self.y <= COORD_LIMIT
        &&& 0 <= self.width <= COORD_LIMIT
        &&& 0 <= self.height <= COORD_LIMIT
    }

    open spec fn spec_bounds(&self) -> Bounds {
        Bounds { x: self.x, y: self.y, width: self.width, height: self.height }
    }

    /// One indexed draw call: the quad's 6 indices, 1 instance, against
    /// this rectangle's vertex buffer and the shared index buffer.
    open spec fn draw_calls(&self) -> Seq<DrawCall> {
        seq![
            DrawCall {
                index_count: 6,
                instance_count: 1,
                vertex_buffer: self.vertex_buffer,
                index_buffer: self.shared_index,
            },
        ]
    }

    fn bounds(&self) -> (b: Bounds) {
        Bounds { x: self.x, y: self.y, width: self.width, height: self.height }
    }

    fn process_event(&mut self, event: &Event) {
        match event {
            _ => (),
        }
    }

    fn render(&self, pass: &mut RenderPass) {
        let ghost draws0 = pass.draws@;
        pass.set_index_buffer(self.shared_index);
        pass.set_vertex_buffer(self.vertex_buffer);
        pass.draw_indexed(6, 1);
        proof {
            let dc = DrawCall {
                index_count: 6,
                instance_count: 1,
                vertex_buffer: self.vertex_buffer,
                index_buffer: self.shared_index,
            };
            assert(draws0.push(dc) =~= draws0 + self.draw_calls());
        }
    }
}

} // verus!
