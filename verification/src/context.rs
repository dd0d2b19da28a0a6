//! The render context: owner of the device-facing state — surface
//! configuration, render pipeline, uniform resource pair, geometry cache
//! and text overlay — and driver of the per-frame render protocol.

use vstd::prelude::*;

use crate::bind_group::{BindGroupInstance, WindowBindGroup};
use crate::geometry::GeometryCache;
use crate::math::{compute_transform, spec_vertex_layout, Transform, Vertex, VertexLayout};
use crate::pass::{clear_color, spec_clear_color, DrawCall, RenderPass};
use crate::text::{spec_widget_label, widget_label, TextOverlay, TextSection};
use crate::widgets::{Rect, Widget};

verus! {

/// One texture format a surface offers, as the engine reads it: an
/// identity and whether it is gamma-correct.
#[derive(Clone, Copy, PartialEq, Eq, Structural, Debug)]
pub struct SurfaceFormat {
    pub id: u32,
    pub srgb: bool,
}

/// Picks the surface format: the first gamma-correct format offered, or,
/// when none is, the first format reported.
pub fn choose_surface_format(formats: &Vec<SurfaceFormat>) -> (f: SurfaceFormat)
    requires
        formats@.len() > 0,
    ensures
        (exists|j: int| 0 <= j < formats@.len() && (#[trigger] formats@[j]).srgb) ==> exists|j: int|
            {
                &&& 0 <= j < formats@.len()
                &&& (#[trigger] formats@[j]).srgb
                &&& f == formats@[j]
                &&& forall|k: int| 0 <= k < j ==> !(#[trigger] formats@[k]).srgb
            },
        (forall|j: int| 0 <= j < formats@.len() ==> !(#[trigger] formats@[j]).srgb) ==> f
            == formats@[0],
{
    let n = formats.len();
    let mut i: usize = 0;
    while i < n
        invariant
            n == formats@.len(),
            0 <= i <= n,
            forall|k: int| 0 <= k < i ==> !(#[trigger] formats@[k]).srgb,
        decreases n - i,
    {
        if formats[i].srgb {
            return formats[i];
        }
        i = i + 1;
    }
    formats[0]
}

/// The presentation surface's configuration: negotiated format, current
/// size, and the first present and alpha modes the surface reported.
#[derive(Clone, Copy, PartialEq, Eq, Structural, Debug)]
pub struct SurfaceConfig {
    pub format: SurfaceFormat,
    pub width: u32,
    pub height: u32,
    pub present_mode: u32,
    pub alpha_mode: u32,
}

/// The render pipeline's fixed state: one vertex input slot with the
/// engine's layout, triangle-list topology with clockwise front faces and
/// back-face culling, replace blending onto the surface format, single
/// sample, no depth or stencil.
#[derive(Clone, Copy, PartialEq, Eq, Structural, Debug)]
pub struct RenderPipelineModel {
    pub vertex_layout: VertexLayout,
    pub target_format: SurfaceFormat,
    pub triangle_list: bool,
    pub front_face_clockwise: bool,
    pub cull_back_faces: bool,
    pub blend_replace: bool,
    pub sample_count: u32,
}

/// What acquiring the next presentable target yielded.
#[derive(Clone, Copy, PartialEq, Eq, Structural, Debug)]
pub enum SurfaceStatus {
    /// A target is ready to be drawn to and presented.
    Available,
    /// The surface was lost; it must be reconfigured before the next use.
    Lost,
    /// The configuration no longer matches the surface.
    Outdated,
    /// No target became ready in time.
    Timeout,
    /// The device is out of memory.
    OutOfMemory,
}

/// A frame-level surface failure, as the caller classifies it: `Lost`
/// asks for a reconfigure and retry, `OutOfMemory` is fatal, the rest are
/// logged and the frame dropped.
#[derive(Clone, Copy, PartialEq, Eq, Structural, Debug)]
pub enum SurfaceError {
    Lost,
    Outdated,
    Timeout,
    OutOfMemory,
}

/// Everything one successfully rendered frame recorded and submitted.
#[derive(Debug)]
pub struct Frame {
    /// The transform uploaded to the uniform pair for this frame.
    pub transform: Transform,
    /// The window size uploaded alongside it.
    pub size_width: u32,
    pub size_height: u32,
    /// The render pass as recorded: clear, bindings, draws, text.
    pub pass: RenderPass,
    /// Whether the target was presented after submission.
    pub presented: bool,
}

/// Owner of the graphics device state and driver of the render protocol.
#[derive(Debug)]
pub struct RenderContext {
    /// Current surface configuration; resized in place, never rebuilt.
    pub surface_config: SurfaceConfig,
    /// Current logical window size, the source for every transform.
    pub window_width: u32,
    pub window_height: u32,
    /// The one render pipeline, fixed at construction.
    pub pipeline: RenderPipelineModel,
    /// The uniform resource pair, rewritten every frame.
    pub window_bind_group: WindowBindGroup,
    /// Owner of the shared index buffer and all vertex buffers.
    pub cache: GeometryCache,
    /// The text overlay engine.
    pub text: TextOverlay,
}

impl RenderContext {
    /// The stored window size is positive and agrees with the surface
    /// configuration, and the owned resources are themselves well formed.
    pub open spec fn wf(self) -> bool {
        &&& self.window_width > 0
        &&& self.window_height > 0
        &&& self.surface_config.width == self.window_width
        &&& self.surface_config.height == self.window_height
        &&& self.window_bind_group.wf()
        &&& self.cache.wf()
        &&& self.pipeline.vertex_layout == spec_vertex_layout()
    }

    /// Acquires the device-facing state for a window of logical size
    /// `(width, height)`, given what the surface reports: its formats,
    /// present modes and alpha modes, each in the order reported.
    /// Negotiates the format, configures the surface, and builds the
    /// pipeline and the uniform resource pair.
    pub fn new(
        width: u32,
        height: u32,
        formats: &Vec<SurfaceFormat>,
        present_modes: &Vec<u32>,
        alpha_modes: &Vec<u32>,
    ) -> (ctx: RenderContext)
        requires
            width > 0,
            height > 0,
            formats@.len() > 0,
            present_modes@.len() > 0,
            alpha_modes@.len() > 0,
        ensures
            ctx.wf(),
            ctx.window_width == width,
            ctx.window_height == height,
            ctx.surface_config.width == width,
            ctx.surface_config.height == height,
            ctx.surface_config.present_mode == present_modes@[0],
            ctx.surface_config.alpha_mode == alpha_modes@[0],
            (exists|j: int| 0 <= j < formats@.len() && (#[trigger] formats@[j]).srgb)
                ==> exists|j: int|
                {
                    &&& 0 <= j < formats@.len()
                    &&& (#[trigger] formats@[j]).srgb
                    &&& ctx.surface_config.format == formats@[j]
                    &&& forall|k: int| 0 <= k < j ==> !(#[trigger] formats@[k]).srgb
                },
            (forall|j: int| 0 <= j < formats@.len() ==> !(#[trigger] formats@[j]).srgb)
                ==> ctx.surface_config.format == formats@[0],
            ctx.pipeline == (RenderPipelineModel {
                vertex_layout: spec_vertex_layout(),
                target_format: ctx.surface_config.format,
                triangle_list: true,
                front_face_clockwise: true,
                cull_back_faces: true,
                blend_replace: true,
                sample_count: 1,
            }),
            ctx.window_bind_group.transform == (Transform { width, height }),
            ctx.window_bind_group.size_width == width,
            ctx.window_bind_group.size_height == height,
            ctx.cache.buffers@.len() == 0,
            ctx.cache.shared_index is None,
            ctx.text.view_width == width,
            ctx.text.view_height == height,
            ctx.text.queued@.len() == 0,
    {
        let format = choose_surface_format(formats);
        let surface_config = SurfaceConfig {
            format,
            width,
            height,
            present_mode: present_modes[0],
            alpha_mode: alpha_modes[0],
        };
        let pipeline = RenderPipelineModel {
            vertex_layout: Vertex::desc(),
            target_format: format,
            triangle_list: true,
            front_face_clockwise: true,
            cull_back_faces: true,
            blend_replace: true,
            sample_count: 1,
        };
        let window_bind_group = WindowBindGroup::new(width, height);
        RenderContext {
            surface_config,
            window_width: width,
            window_height: height,
            pipeline,
            window_bind_group,
            cache: GeometryCache::new(),
            text: TextOverlay::new(width, height),
        }
    }

    /// Adopts a new window size and reconfigures the surface in place.
    /// A notification with a zero dimension — a minimized window — is
    /// ignored outright: nothing stored changes.
    pub fn resize(&mut self, width: u32, height: u32)
        requires
            old(self).wf(),
        ensures
            final(self).wf(),
            width == 0 || height == 0 ==> *final(self) == *old(self),
            width > 0 && height > 0 ==> {
                &&& final(self).window_width == width
                &&& final(self).window_height == height
                &&& final(self).surface_config == (SurfaceConfig {
                    width,
                    height,
                    ..old(self).surface_config
                })
                &&& final(self).text.view_width == width
                &&& final(self).text.view_height == height
                &&& final(self).text.queued == old(self).text.queued
                &&& final(self).pipeline == old(self).pipeline
                &&& final(self).window_bind_group == old(self).window_bind_group
                &&& final(self).cache == old(self).cache
            },
    {
        if width > 0 && height > 0 {
            self.window_width = width;
            self.window_height = height;
            self.surface_config.width = width;
            self.surface_config.height = height;
            self.text.resize_view(width, height);
        }
    }

    /// Renders one frame over `rects`, given what acquiring the next
    /// presentable target yielded.
    ///
    /// When a target is available: re-derives the transform and window
    /// size from the stored live size and rewrites the uniform pair with
    /// them, queues one label per rectangle, records one pass — cleared
    /// to the fixed color, pipeline and window bind group bound, one
    /// indexed draw call per rectangle in order, the text appended after
    /// all geometry — submits it and presents.  When no target came, the
    /// failure is passed back unchanged and nothing is touched: the
    /// widget collection and every device resource stay intact.
    pub fn render(&mut self, rects: &Vec<Rect>, acquire: SurfaceStatus) -> (r: Result<
        Frame,
        SurfaceError,
    >)
        requires
            old(self).wf(),
            forall|i: int| 0 <= i < rects@.len() ==> (#[trigger] rects@[i]).wf(),
        ensures
            final(self).wf(),
            final(self).surface_config == old(self).surface_config,
            final(self).window_width == old(self).window_width,
            final(self).window_height == old(self).window_height,
            final(self).pipeline == old(self).pipeline,
            final(self).cache == old(self).cache,
            acquire is Lost ==> r == Err::<Frame, SurfaceError>(SurfaceError::Lost)
                && *final(self) == *old(self),
            acquire is Outdated ==> r == Err::<Frame, SurfaceError>(SurfaceError::Outdated)
                && *final(self) == *old(self),
            acquire is Timeout ==> r == Err::<Frame, SurfaceError>(SurfaceError::Timeout)
                && *final(self) == *old(self),
            acquire is OutOfMemory ==> r == Err::<Frame, SurfaceError>(SurfaceError::OutOfMemory)
                && *final(self) == *old(self),
            acquire is Available ==> {
                &&& r matches Ok(frame)
                &&& frame.transform == (Transform {
                    width: old(self).window_width,
                    height: old(self).window_height,
                })
                &&& frame.size_width == old(self).window_width
                &&& frame.size_height == old(self).window_height
                &&& final(self).window_bind_group.transform == frame.transform
                &&& final(self).window_bind_group.size_width == old(self).window_width
                &&& final(self).window_bind_group.size_height == old(self).window_height
                &&& frame.pass.clear == spec_clear_color()
                &&& frame.pass.pipeline_bound
                &&& frame.pass.group0_bound
                &&& frame.pass.draws@.len() == rects@.len()
                &&& forall|i: int|
                    0 <= i < rects@.len() ==> frame.pass.draws@[i] == (DrawCall {
                        index_count: 6,
                        instance_count: 1,
                        vertex_buffer: (#[trigger] rects@[i]).vertex_buffer,
                        index_buffer: rects@[i].shared_index,
                    })
                &&& frame.pass.text_batches == 1
                &&& frame.presented
                &&& final(self).text.view_width == old(self).text.view_width
                &&& final(self).text.view_height == old(self).text.view_height
                &&& final(self).text.queued@.len() == rects@.len()
                &&& forall|i: int|
                    0 <= i < rects@.len() ==> {
                        &&& (#[trigger] final(self).text.queued@[i]).text@ == spec_widget_label()
                        &&& final(self).text.queued@[i].x == rects@[i].x
                        &&& final(self).text.queued@[i].y == rects@[i].y
                        &&& final(self).text.queued@[i].bound_width == rects@[i].width
                        &&& final(self).text.queued@[i].bound_height == rects@[i].height
                    }
            },
    {
        match acquire {
            SurfaceStatus::Lost => return Err(SurfaceError::Lost),
            SurfaceStatus::Outdated => return Err(SurfaceError::Outdated),
            SurfaceStatus::Timeout => return Err(SurfaceError::Timeout),
            SurfaceStatus::OutOfMemory => return Err(SurfaceError::OutOfMemory),
            SurfaceStatus::Available => (),
        }
        // Re-derive the transform from the live window size and rewrite
        // the uniform pair before anything that depends on it is encoded.
        let width = self.window_width;
        let height = self.window_height;
        let transform = compute_transform(width, height);
        self.window_bind_group.write(transform, width, height);

        // Rebuild the text queue in full: one label per rectangle.
        let mut sections: Vec<TextSection> = Vec::new();
        let mut i: usize = 0;
        while i < rects.len()
            invariant
                i <= rects@.len(),
                sections@.len() == i,
                forall|k: int|
                    0 <= k < i ==> {
                        &&& (#[trigger] sections@[k]).text@ == spec_widget_label()
                        &&& sections@[k].x == rects@[k].x
                        &&& sections@[k].y == rects@[k].y
                        &&& sections@[k].bound_width == rects@[k].width
                        &&& sections@[k].bound_height == rects@[k].height
                    },
            decreases rects@.len() - i,
        {
            let rect = rects[i];
            sections.push(
                TextSection {
                    text: widget_label(),
                    x: rect.x,
                    y: rect.y,
                    bound_width: rect.width,
                    bound_height: rect.height,
                },
            );
            i = i + 1;
        }
        self.text.queue(sections);

        // Record the pass: clear, bind, draw every widget, then the text.
        let mut pass = RenderPass::begin(clear_color());
        pass.set_pipeline();
        self.window_bind_group.bind(0, &mut pass);
        let mut j: usize = 0;
        while j < rects.len()
            invariant
                j <= rects@.len(),
                forall|k: int| 0 <= k < rects@.len() ==> (#[trigger] rects@[k]).wf(),
                pass.clear == spec_clear_color(),
                pass.pipeline_bound,
                pass.group0_bound,
                pass.text_batches == 0,
                pass.draws@.len() == j,
                forall|k: int|
                    0 <= k < j ==> pass.draws@[k] == (DrawCall {
                        index_count: 6,
                        instance_count: 1,
                        vertex_buffer: (#[trigger] rects@[k]).vertex_buffer,
                        index_buffer: rects@[k].shared_index,
                    }),
            decreases rects@.len() - j,
        {
            rects[j].render(&mut pass);
            j = j + 1;
        }
        self.text.draw(&mut pass);

        Ok(Frame { transform, size_width: width, size_height: height, pass, presented: true })
    }
}

} // verus!
