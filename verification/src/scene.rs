//! The control-loop decisions: what each window or input event does to
//! the scene — the render context, the rectangle collection and the last
//! known cursor position — and what the caller must do next.
//!
//! The surrounding loop stays outside: it delivers events one at a time,
//! performs the returned action, and hands back what the surface yielded
//! when a redraw was requested.

use vstd::prelude::*;

use crate::context::{Frame, RenderContext, SurfaceError, SurfaceStatus};
use crate::math::{Transform, COORD_LIMIT};
use crate::pass::{spec_clear_color, DrawCall};
use crate::widgets::{Rect, Widget};

verus! {

/// One event delivered by the window, reduced to the plain values the
/// scene logic reads.
#[derive(Clone, Copy, PartialEq, Eq, Structural, Debug)]
pub enum InputEvent {
    /// The cursor moved to this logical position.
    CursorMoved { x: i64, y: i64 },
    /// The cursor left the window.
    CursorLeft,
    /// The left mouse button was pressed.
    LeftMousePressed,
    /// The exit key was pressed.
    EscapePressed,
    /// The window asked to close.
    CloseRequested,
    /// The window was resized to this logical size.
    Resized { width: u32, height: u32 },
    /// A redraw was requested; `acquire` is what acquiring the next
    /// presentable target yielded.
    RedrawRequested { acquire: SurfaceStatus },
}

/// What the caller must do after an event was handled.
#[derive(Clone, Copy, PartialEq, Eq, Structural, Debug)]
pub enum Action {
    /// Nothing; keep delivering events.
    Continue,
    /// Request a redraw from the window.
    Redraw,
    /// Terminate the control loop.
    Exit,
}

/// Logical side length of the square a click creates.
pub const CLICK_RECT_SIZE: i64 = 20;

/// The scene: the device-facing context, the rectangles created so far,
/// and the cursor position, when one is known.
#[derive(Debug)]
pub struct Scene {
    pub render_context: RenderContext,
    pub rects: Vec<Rect>,
    pub cursor: Option<(i64, i64)>,
}

impl Scene {
    /// The context is well formed, every rectangle is, and any known
    /// cursor position lies in the engine's logical range.
    pub open spec fn wf(self) -> bool {
        &&& self.render_context.wf()
        &&& forall|i: int| 0 <= i < self.rects@.len() ==> (#[trigger] self.rects@[i]).wf()
        &&& self.cursor matches Some(c) ==> -COORD_LIMIT <= c.0 <= COORD_LIMIT && -COORD_LIMIT
            <= c.1 <= COORD_LIMIT
    }

    /// Starts the scene over a freshly acquired context: one 10 by 10
    /// rectangle at the origin, and no cursor position known yet.
    pub fn new(render_context: RenderContext) -> (s: Scene)
        requires
            render_context.wf(),
            render_context.cache.buffers@.len() + 2 <= usize::MAX,
        ensures
            s.wf(),
            s.cursor is None,
            s.rects@.len() == 1,
            s.rects@[0].x == 0,
            s.rects@[0].y == 0,
            s.rects@[0].width == 10,
            s.rects@[0].height == 10,
            s.render_context.cache.shared_index is Some,
            render_context.cache.shared_index is None ==> s.render_context.cache.buffers@.len()
                == render_context.cache.buffers@.len() + 2,
            render_context.cache.shared_index is Some ==> s.render_context.cache.buffers@.len()
                == render_context.cache.buffers@.len() + 1,
            s.render_context.surface_config == render_context.surface_config,
            s.render_context.window_width == render_context.window_width,
            s.render_context.window_height == render_context.window_height,
            s.render_context.pipeline == render_context.pipeline,
            s.render_context.window_bind_group == render_context.window_bind_group,
            s.render_context.text == render_context.text,
    {
        let mut render_context = render_context;
        let first = Rect::new(0, 0, 10, 10, &mut render_context);
        let mut rects: Vec<Rect> = Vec::new();
        rects.push(first);
        Scene { render_context, rects, cursor: None }
    }

    /// Applies one event to the scene and says what to do next.
    ///
    /// Cursor events only track the position.  A left press with a known
    /// cursor position appends one fixed-size square with its top-left
    /// corner there and asks for a redraw; with no position known it does
    /// nothing.  The exit key and a close request end the loop.  A resize
    /// reconfigures the context, ignoring zero dimensions.  A redraw
    /// renders one frame; a lost surface makes the context reconfigure at
    /// its current size for the next attempt, running out of memory ends
    /// the loop, and any other surface failure only drops the frame.
    pub fn handle_event(&mut self, event: InputEvent) -> (r: (Action, Option<Frame>))
        requires
            old(self).wf(),
            old(self).render_context.cache.buffers@.len() + 2 <= usize::MAX,
            old(self).rects@.len() < usize::MAX,
            event matches InputEvent::CursorMoved { x, y } ==> -COORD_LIMIT <= x <= COORD_LIMIT
                && -COORD_LIMIT <= y <= COORD_LIMIT,
        ensures
            final(self).wf(),
            event matches InputEvent::CursorMoved { x, y } ==> {
                &&& final(self).cursor == Some((x, y))
                &&& final(self).rects == old(self).rects
                &&& final(self).render_context == old(self).render_context
                &&& r.0 == Action::Continue
                &&& r.1 is None
            },
            event is CursorLeft ==> {
                &&& final(self).cursor is None
                &&& final(self).rects == old(self).rects
                &&& final(self).render_context == old(self).render_context
                &&& r.0 == Action::Continue
                &&& r.1 is None
            },
            event is LeftMousePressed && old(self).cursor is None ==> {
                &&& *final(self) == *old(self)
                &&& r.0 == Action::Continue
                &&& r.1 is None
            },
            event is LeftMousePressed && old(self).cursor is Some ==> {
                &&& old(self).cursor matches Some(c)
                &&& final(self).cursor == old(self).cursor
                &&& final(self).rects@.len() == old(self).rects@.len() + 1
                &&& forall|i: int|
                    0 <= i < old(self).rects@.len() ==> (#[trigger] final(self).rects@[i]) == old(
                        self,
                    ).rects@[i]
                &&& final(self).rects@[old(self).rects@.len() as int].x == c.0
                &&& final(self).rects@[old(self).rects@.len() as int].y == c.1
                &&& final(self).rects@[old(self).rects@.len() as int].width == CLICK_RECT_SIZE
                &&& final(self).rects@[old(self).rects@.len() as int].height == CLICK_RECT_SIZE
                &&& final(self).render_context.cache.shared_index is Some
                &&& old(self).render_context.cache.shared_index is Some
                    ==> final(self).render_context.cache.buffers@.len()
                    == old(self).render_context.cache.buffers@.len() + 1
                &&& old(self).render_context.cache.shared_index is None
                    ==> final(self).render_context.cache.buffers@.len()
                    == old(self).render_context.cache.buffers@.len() + 2
                &&& final(self).render_context.surface_config == old(
                    self,
                ).render_context.surface_config
                &&& final(self).render_context.window_width == old(
                    self,
                ).render_context.window_width
                &&& final(self).render_context.window_height == old(
                    self,
                ).render_context.window_height
                &&& final(self).render_context.window_bind_group == old(
                    self,
                ).render_context.window_bind_group
                &&& r.0 == Action::Redraw
                &&& r.1 is None
            },
            event is EscapePressed || event is CloseRequested ==> {
                &&& *final(self) == *old(self)
                &&& r.0 == Action::Exit
                &&& r.1 is None
            },
            event matches InputEvent::Resized { width, height } ==> {
                &&& final(self).rects == old(self).rects
                &&& final(self).cursor == old(self).cursor
                &&& (width == 0 || height == 0) ==> final(self).render_context == old(
                    self,
                ).render_context
                &&& (width > 0 && height > 0) ==> {
                    &&& final(self).render_context.window_width == width
                    &&& final(self).render_context.window_height == height
                    &&& final(self).render_context.surface_config.width == width
                    &&& final(self).render_context.surface_config.height == height
                    &&& final(self).render_context.surface_config.format == old(
                        self,
                    ).render_context.surface_config.format
                    &&& final(self).render_context.cache == old(self).render_context.cache
                }
                &&& r.0 == Action::Continue
                &&& r.1 is None
            },
            event matches InputEvent::RedrawRequested { acquire } ==> {
                &&& final(self).rects == old(self).rects
                &&& final(self).cursor == old(self).cursor
                &&& final(self).render_context.cache == old(self).render_context.cache
                &&& acquire is Available ==> {
                    &&& r.0 == Action::Continue
                    &&& r.1 matches Some(frame)
                    &&& frame.transform == (Transform {
                        width: old(self).render_context.window_width,
                        height: old(self).render_context.window_height,
                    })
                    &&& frame.size_width == old(self).render_context.window_width
                    &&& frame.size_height == old(self).render_context.window_height
                    &&& frame.pass.clear == spec_clear_color()
                    &&& frame.pass.pipeline_bound
                    &&& frame.pass.group0_bound
                    &&& frame.pass.draws@.len() == old(self).rects@.len()
                    &&& forall|i: int|
                        0 <= i < old(self).rects@.len() ==> frame.pass.draws@[i] == (DrawCall {
                            index_count: 6,
                            instance_count: 1,
                            vertex_buffer: (#[trigger] old(self).rects@[i]).vertex_buffer,
                            index_buffer: old(self).rects@[i].shared_index,
                        })
                    &&& frame.pass.text_batches == 1
                    &&& frame.presented
                    &&& final(self).render_context.window_bind_group.transform
                        == frame.transform
                    &&& final(self).render_context.surface_config == old(
                        self,
                    ).render_context.surface_config
                }
                &&& acquire is Lost ==> {
                    &&& r.0 == Action::Continue
                    &&& r.1 is None
                    &&& final(self).render_context.window_width == old(
                        self,
                    ).render_context.window_width
                    &&& final(self).render_context.window_height == old(
                        self,
                    ).render_context.window_height
                    &&& final(self).render_context.surface_config == old(
                        self,
                    ).render_context.surface_config
                    &&& final(self).render_context.window_bind_group == old(
                        self,
                    ).render_context.window_bind_group
                }
                &&& acquire is OutOfMemory ==> {
                    &&& r.0 == Action::Exit
                    &&& r.1 is None
                    &&& final(self).render_context == old(self).render_context
                }
                &&& (acquire is Outdated || acquire is Timeout) ==> {
                    &&& r.0 == Action::Continue
                    &&& r.1 is None
                    &&& final(self).render_context == old(self).render_context
                }
            },
    {
        match event {
            InputEvent::CursorMoved { x, y } => {
                self.cursor = Some((x, y));
                (Action::Continue, None)
            },
            InputEvent::CursorLeft => {
                self.cursor = None;
                (Action::Continue, None)
            },
            InputEvent::LeftMousePressed => {
                match self.cursor {
                    Some((x, y)) => {
                        let rect = Rect::new(
                            x,
                            y,
                            CLICK_RECT_SIZE,
                            CLICK_RECT_SIZE,
                            &mut self.render_context,
                        );
                        self.rects.push(rect);
                        (Action::Redraw, None)
                    },
                    None => (Action::Continue, None),
                }
            },
            InputEvent::EscapePressed => (Action::Exit, None),
            InputEvent::CloseRequested => (Action::Exit, None),
            InputEvent::Resized { width, height } => {
                self.render_context.resize(width, height);
                (Action::Continue, None)
            },
            InputEvent::RedrawRequested { acquire } => {
                match self.render_context.render(&self.rects, acquire) {
                    Ok(frame) => (Action::Continue, Some(frame)),
                    Err(SurfaceError::Lost) => {
                        let width = self.render_context.window_width;
                        let height = self.render_context.window_height;
                        self.render_context.resize(width, height);
                        (Action::Continue, None)
                    },
                    Err(SurfaceError::OutOfMemory) => (Action::Exit, None),
                    Err(SurfaceError::Outdated) => (Action::Continue, None),
                    Err(SurfaceError::Timeout) => (Action::Continue, None),
                }
            },
        }
    }
}

} // verus!
