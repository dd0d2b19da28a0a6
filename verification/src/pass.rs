//! The per-frame render pass, modelled as the commands it records: which
//! pipeline and bind group are bound, which buffers are bound, the indexed
//! draw calls issued, and whether the text overlay has been appended.

use vstd::prelude::*;

use crate::geometry::BufferId;

verus! {

/// A clear color with channels in tenths, so the fixed dark blue-gray
/// `(0.1, 0.2, 0.3, 1.0)` is exact.
#[derive(Clone, Copy, PartialEq, Eq, Structural, Debug)]
pub struct ClearColor {
    pub red_tenths: u8,
    pub green_tenths: u8,
    pub blue_tenths: u8,
    pub alpha_tenths: u8,
}

/// The fixed clear color of every frame: dark blue-gray, fully opaque.
pub open spec fn spec_clear_color() -> ClearColor {
    ClearColor { red_tenths: 1, green_tenths: 2, blue_tenths: 3, alpha_tenths: 10 }
}

/// Builds the fixed frame clear color.
pub fn clear_color() -> (c: ClearColor)
    ensures
        c == spec_clear_color(),
{
    ClearColor { red_tenths: 1, green_tenths: 2, blue_tenths: 3, alpha_tenths: 10 }
}

/// One indexed draw call, together with the buffers it was issued against.
#[derive(Clone, Copy, PartialEq, Eq, Structural, Debug)]
pub struct DrawCall {
    pub index_count: u32,
    pub instance_count: u32,
    pub vertex_buffer: BufferId,
    pub index_buffer: BufferId,
}

/// One render pass being recorded: a color target cleared to a fixed
/// color, fully stored, plus the state and draw calls recorded so far.
#[derive(Debug)]
pub struct RenderPass {
    /// Clear policy of the color attachment.
    pub clear: ClearColor,
    /// Whether the render pipeline has been bound.
    pub pipeline_bound: bool,
    /// Whether a bind group has been bound at group slot 0.
    pub group0_bound: bool,
    /// The vertex buffer currently bound at input slot 0, if any.
    pub vertex_bound: Option<BufferId>,
    /// The index buffer currently bound, if any.
    pub index_bound: Option<BufferId>,
    /// The indexed draw calls issued so far, in order.
    pub draws: Vec<DrawCall>,
    /// How many queued text batches have been appended after the geometry.
    pub text_batches: u32,
}

impl RenderPass {
    /// Begins an empty pass over a target cleared to `clear`.
    pub fn begin(clear: ClearColor) -> (p: RenderPass)
        ensures
            p.clear == clear,
            !p.pipeline_bound,
            !p.group0_bound,
            p.vertex_bound is None,
            p.index_bound is None,
            p.draws@.len() == 0,
            p.text_batches == 0,
    {
        RenderPass {
            clear,
            pipeline_bound: false,
            group0_bound: false,
            vertex_bound: None,
            index_bound: None,
            draws: Vec::new(),
            text_batches: 0,
        }
    }

    /// Binds the render pipeline.
    pub fn set_pipeline(&mut self)
        ensures
            *final(self) == (RenderPass { pipeline_bound: true, ..*old(self) }),
    {
        self.pipeline_bound = true;
    }

    /// Binds a bind group at group slot `index`; only slot 0 is used by
    /// this engine's pipeline.
    pub fn set_bind_group(&mut self, index: u32)
        ensures
            index == 0 ==> *final(self) == (RenderPass { group0_bound: true, ..*old(self) }),
            index != 0 ==> *final(self) == *old(self),
    {
        if index == 0 {
            self.group0_bound = true;
        }
    }

    /// Binds `buffer` as the vertex buffer at input slot 0.
    pub fn set_vertex_buffer(&mut self, buffer: BufferId)
        ensures
            *final(self) == (RenderPass { vertex_bound: Some(buffer), ..*old(self) }),
    {
        self.vertex_bound = Some(buffer);
    }

    /// Binds `buffer` as the index buffer.
    pub fn set_index_buffer(&mut self, buffer: BufferId)
        ensures
            *final(self) == (RenderPass { index_bound: Some(buffer), ..*old(self) }),
    {
        self.index_bound = Some(buffer);
    }

    /// Issues one indexed draw call against the currently bound buffers.
    /// Drawing with no vertex or index buffer bound is a programming
    /// error, so such states are excluded.
    pub fn draw_indexed(&mut self, index_count: u32, instance_count: u32)
        requires
            old(self).vertex_bound is Some,
            old(self).index_bound is Some,
            old(self).draws@.len() < usize::MAX,
        ensures
            final(self).draws@ == old(self).draws@.push(
                DrawCall {
                    index_count,
                    instance_count,
                    vertex_buffer: old(self).vertex_bound.unwrap(),
                    index_buffer: old(self).index_bound.unwrap(),
                },
            ),
            final(self).clear == old(self).clear,
            final(self).pipeline_bound == old(self).pipeline_bound,
            final(self).group0_bound == old(self).group0_bound,
            final(self).vertex_bound == old(self).vertex_bound,
            final(self).index_bound == old(self).index_bound,
            final(self).text_batches == old(self).text_batches,
    {
        let vertex_buffer = match self.vertex_bound {
            Some(b) => b,
            None => unreached(),
        };
        let index_buffer = match self.index_bound {
            Some(b) => b,
            None => unreached(),
        };
        self.draws.push(DrawCall { index_count, instance_count, vertex_buffer, index_buffer });
    }

    /// Records that one queued text batch was appended after the geometry
    /// recorded so far.
    pub fn append_text_batch(&mut self)
        requires
            old(self).text_batches < u32::MAX,
        ensures
            final(self).text_batches == old(self).text_batches + 1,
            final(self).clear == old(self).clear,
            final(self).pipeline_bound == old(self).pipeline_bound,
            final(self).group0_bound == old(self).group0_bound,
            final(self).vertex_bound == old(self).vertex_bound,
            final(self).index_bound == old(self).index_bound,
            final(self).draws@ == old(self).draws@,
    {
        self.text_batches = self.text_batches + 1;
    }
}

} // verus!
