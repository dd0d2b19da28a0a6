//! The text overlay: a queue of screen-space label sections, rebuilt in
//! full every frame and drawn into the same pass as the geometry, after
//! it, so text always renders on top.

use vstd::prelude::*;

use crate::pass::RenderPass;

verus! {

/// The label every widget is drawn with.
pub open spec fn spec_widget_label() -> Seq<char> {
    "(;-;)"@
}

/// Builds the fixed widget label.
pub fn widget_label() -> (s: String)
    ensures
        s@ == spec_widget_label(),
{
    String::from_str("(;-;)")
}

/// One queued label: a short text anchored at a screen-space position
/// with bounding dimensions.
#[derive(Debug)]
pub struct TextSection {
    pub text: String,
    pub x: i64,
    pub y: i64,
    pub bound_width: i64,
    pub bound_height: i64,
}

/// The overlay engine: its internal projection's viewport size and the
/// sections queued for the current frame.
#[derive(Debug)]
pub struct TextOverlay {
    pub view_width: u32,
    pub view_height: u32,
    pub queued: Vec<TextSection>,
}

impl TextOverlay {
    /// An overlay projecting onto a viewport of the given size, with
    /// nothing queued.
    pub fn new(view_width: u32, view_height: u32) -> (t: TextOverlay)
        ensures
            t.view_width == view_width,
            t.view_height == view_height,
            t.queued@.len() == 0,
    {
        TextOverlay { view_width, view_height, queued: Vec::new() }
    }

    /// Replaces the previous frame's queued text in full with `sections`;
    /// there is no incremental update.
    pub fn queue(&mut self, sections: Vec<TextSection>)
        ensures
            final(self).queued == sections,
            final(self).view_width == old(self).view_width,
            final(self).view_height == old(self).view_height,
    {
        self.queued = sections;
    }

    /// Appends the queued sections' draw calls to `pass`, after whatever
    /// geometry the pass already holds.
    pub fn draw(&self, pass: &mut RenderPass)
        requires
            old(pass).text_batches < u32::MAX,
        ensures
            final(pass).text_batches == old(pass).text_batches + 1,
            final(pass).clear == old(pass).clear,
            final(pass).pipeline_bound == old(pass).pipeline_bound,
            final(pass).group0_bound == old(pass).group0_bound,
            final(pass).vertex_bound == old(pass).vertex_bound,
            final(pass).index_bound == old(pass).index_bound,
            final(pass).draws@ == old(pass).draws@,
    {
        pass.append_text_batch();
    }

    /// Keeps the overlay's projection consistent with a resized surface.
    pub fn resize_view(&mut self, width: u32, height: u32)
        ensures
            final(self).view_width == width,
            final(self).view_height == height,
            final(self).queued == old(self).queued,
    {
        self.view_width = width;
        self.view_height = height;
    }
}

} // verus!
