//! The uniform resource pair: two device-resident constant buffers — the
//! window transform and the padded window size — exposed to the vertex and
//! fragment stages through one bind group under a fixed two-binding layout.
//!
//! The buffer handles and the bind group are created once and never
//! replaced; only the buffer contents are rewritten, once per frame.

use vstd::prelude::*;

use crate::math::Transform;
use crate::pass::RenderPass;

verus! {

/// One entry of a bind group layout.
#[derive(Clone, Copy, PartialEq, Eq, Structural, Debug)]
pub struct BindingLayoutEntry {
    /// Binding index inside the group.
    pub binding: u32,
    /// Visible to the vertex stage.
    pub visible_vertex: bool,
    /// Visible to the fragment stage.
    pub visible_fragment: bool,
    /// A uniform-typed buffer binding.
    pub uniform_buffer: bool,
    /// Whether the binding takes a dynamic offset.
    pub dynamic_offset: bool,
}

/// The fixed layout of the window bind group: binding 0 is the transform,
/// binding 1 the window size, both uniform buffers visible to the vertex
/// and fragment stages, with no dynamic offsets.
pub open spec fn spec_window_layout() -> Seq<BindingLayoutEntry> {
    seq![
        BindingLayoutEntry {
            binding: 0,
            visible_vertex: true,
            visible_fragment: true,
            uniform_buffer: true,
            dynamic_offset: false,
        },
        BindingLayoutEntry {
            binding: 1,
            visible_vertex: true,
            visible_fragment: true,
            uniform_buffer: true,
            dynamic_offset: false,
        },
    ]
}

/// Builds the fixed two-entry layout of the window bind group.
pub fn window_layout() -> (l: Vec<BindingLayoutEntry>)
    ensures
        l@ == spec_window_layout(),
{
    let mut l: Vec<BindingLayoutEntry> = Vec::new();
    l.push(BindingLayoutEntry {
        binding: 0,
        visible_vertex: true,
        visible_fragment: true,
        uniform_buffer: true,
        dynamic_offset: false,
    });
    l.push(BindingLayoutEntry {
        binding: 1,
        visible_vertex: true,
        visible_fragment: true,
        uniform_buffer: true,
        dynamic_offset: false,
    });
    proof {
        assert(l@ =~= spec_window_layout());
    }
    l
}

/// A resource owning a bind group that can be bound into a render pass.
pub trait BindGroupInstance: Sized {
    /// The layout this resource exposes its bindings under.
    spec fn spec_layout(&self) -> Seq<BindingLayoutEntry>;

    /// Builds this resource's layout descriptor.
    fn layout_descriptor(&self) -> (l: Vec<BindingLayoutEntry>)
        ensures
            l@ == self.spec_layout(),
    ;

    /// Binds this resource's bind group at group slot `index` of `pass`.
    fn bind(&self, index: u32, pass: &mut RenderPass)
        ensures
            index == 0 ==> *final(pass) == (RenderPass { group0_bound: true, ..*old(pass) }),
            index != 0 ==> *final(pass) == *old(pass),
    ;
}

/// The window bind group: the transform buffer's contents, the size
/// buffer's contents, and the fixed layout they are exposed under.
#[derive(Debug)]
pub struct WindowBindGroup {
    /// Contents of the binding-0 buffer: the current transform matrix.
    pub transform: Transform,
    /// Contents of the binding-1 buffer: the logical window size, padded
    /// to a 4-component vector with zeros on upload.
    pub size_width: u32,
    pub size_height: u32,
    /// The layout the bind group was created under.
    pub layout: Vec<BindingLayoutEntry>,
}

impl WindowBindGroup {
    /// Both buffers hold data for one positive window size and the layout
    /// is the fixed two-binding layout.
    pub open spec fn wf(self) -> bool {
        &&& self.transform.wf()
        &&& self.layout@ == spec_window_layout()
    }

    /// Allocates both uniform buffers and the bind group for a window of
    /// logical size `(width, height)`, filling them with that size's
    /// transform and the size vector.
    pub fn new(width: u32, height: u32) -> (g: WindowBindGroup)
        requires
            width > 0,
            height > 0,
        ensures
            g.transform == (Transform { width, height }),
            g.size_width == width,
            g.size_height == height,
            g.layout@ == spec_window_layout(),
            g.wf(),
    {
        let transform = crate::math::compute_transform(width, height);
        WindowBindGroup { transform, size_width: width, size_height: height, layout: window_layout() }
    }

    /// Rewrites the full contents of both buffers in place; the handles
    /// and the bind group itself stay as they are.  Called once per frame
    /// before any draw that depends on them is submitted.
    pub fn write(&mut self, transform: Transform, width: u32, height: u32)
        requires
            transform.wf(),
        ensures
            final(self).transform == transform,
            final(self).size_width == width,
            final(self).size_height == height,
            final(self).layout@ == old(self).layout@,
    {
        self.transform = transform;
        self.size_width = width;
        self.size_height = height;
    }
}

impl BindGroupInstance for WindowBindGroup {
    /// The fixed two-binding layout.
    open spec fn spec_layout(&self) -> Seq<BindingLayoutEntry> {
        spec_window_layout()
    }

    fn layout_descriptor(&self) -> (l: Vec<BindingLayoutEntry>) {
        window_layout()
    }

    fn bind(&self, index: u32, pass: &mut RenderPass) {
        pass.set_bind_group(index);
    }
}

} // verus!
