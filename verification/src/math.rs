//! Transform math: the affine map from logical window coordinates to
//! device-normalized clip coordinates, and the vertex layout description.
//!
//! The map for a window of logical size `(w, h)` is the scale
//! `(2/w, -2/h, 1)` composed with the translation `(-w/2, -h/2, 0)`.
//! Applied to a window point `(x, y)` it yields the exact rationals
//! `((2x - w) / w, (h - 2y) / h)`, so all clip coordinates here are
//! carried as integer fractions rather than approximated.

use vstd::prelude::*;

verus! {

/// Largest magnitude allowed for a logical coordinate fed to the engine.
/// Keeps every intermediate product of the transform inside `i64`.
pub const COORD_LIMIT: i64 = 0x8000_0000;

/// An exact rational number with a positive denominator.
#[derive(Clone, Copy, PartialEq, Eq, Structural, Debug)]
pub struct Frac {
    pub num: i64,
    pub den: i64,
}

impl Frac {
    /// A well-formed fraction has a positive denominator.
    pub open spec fn wf(self) -> bool {
        self.den > 0
    }
}

/// Numerator of the clip-space x coordinate of the window point `xn / xd`
/// in a window of logical width `w`; the denominator is `clip_den(w, xd)`.
pub open spec fn clip_x_num(w: int, xn: int, xd: int) -> int {
    2 * xn - w * xd
}

/// Numerator of the clip-space y coordinate of the window point `yn / yd`
/// in a window of logical height `h`: window space is y-down, clip space
/// y-up, so the sign flips.
pub open spec fn clip_y_num(h: int, yn: int, yd: int) -> int {
    h * yd - 2 * yn
}

/// Shared denominator of a clip coordinate for window dimension `dim` and
/// point denominator `pd`.
pub open spec fn clip_den(dim: int, pd: int) -> int {
    dim * pd
}

/// The window-space to clip-space transform for one logical window size.
/// The matrix it denotes is fully determined by the two dimensions.
#[derive(Clone, Copy, PartialEq, Eq, Structural, Debug)]
pub struct Transform {
    pub width: u32,
    pub height: u32,
}

/// Computes the transform for a window of logical size `(width, height)`.
/// Degenerate sizes are excluded: callers must never build a transform
/// from a zero dimension.
pub fn compute_transform(width: u32, height: u32) -> (t: Transform)
    requires
        width > 0,
        height > 0,
    ensures
        t.width == width,
        t.height == height,
{
    Transform { width, height }
}

impl Transform {
    pub open spec fn wf(self) -> bool {
        self.width > 0 && self.height > 0
    }

    /// Maps the window point `(x, y)` to its exact clip-space coordinates.
    pub fn apply(&self, x: i64, y: i64) -> (clip: (Frac, Frac))
        requires
            self.wf(),
            -COORD_LIMIT <= x <= COORD_LIMIT,
            -COORD_LIMIT <= y <= COORD_LIMIT,
        ensures
            clip.0.num == clip_x_num(self.width as int, x as int, 1),
            clip.0.den == clip_den(self.width as int, 1),
            clip.1.num == clip_y_num(self.height as int, y as int, 1),
            clip.1.den == clip_den(self.height as int, 1),
            clip.0.wf(),
            clip.1.wf(),
    {
        let w = self.width as i64;
        let h = self.height as i64;
        let cx = Frac { num: 2 * x - w, den: w };
        let cy = Frac { num: h - 2 * y, den: h };
        (cx, cy)
    }

    /// The sixteen entries of the transform matrix in column-major order.
    /// Only the two scale entries depend on the window size; the
    /// translation column is exactly `(-1, 1, 0, 1)`.
    pub open spec fn spec_matrix(self) -> Seq<Frac> {
        seq![
            Frac { num: 2, den: self.width as i64 },
            Frac { num: 0, den: 1 },
            Frac { num: 0, den: 1 },
            Frac { num: 0, den: 1 },
            Frac { num: 0, den: 1 },
            Frac { num: -2i64, den: self.height as i64 },
            Frac { num: 0, den: 1 },
            Frac { num: 0, den: 1 },
            Frac { num: 0, den: 1 },
            Frac { num: 0, den: 1 },
            Frac { num: 1, den: 1 },
            Frac { num: 0, den: 1 },
            Frac { num: -1i64, den: 1 },
            Frac { num: 1, den: 1 },
            Frac { num: 0, den: 1 },
            Frac { num: 1, den: 1 },
        ]
    }

    /// Builds the matrix entries, column-major, for upload as the uniform
    /// transform block.
    pub fn matrix(&self) -> (m: Vec<Frac>)
        requires
            self.wf(),
        ensures
            m@ == self.spec_matrix(),
    {
        let w = self.width as i64;
        let h = self.height as i64;
        let zero = Frac { num: 0, den: 1 };
        let one = Frac { num: 1, den: 1 };
        let mut m: Vec<Frac> = Vec::new();
        m.push(Frac { num: 2, den: w });
        m.push(zero);
        m.push(zero);
        m.push(zero);
        m.push(zero);
        m.push(Frac { num: -2, den: h });
        m.push(zero);
        m.push(zero);
        m.push(zero);
        m.push(zero);
        m.push(one);
        m.push(zero);
        m.push(Frac { num: -1, den: 1 });
        m.push(one);
        m.push(zero);
        m.push(one);
        proof {
            assert(m@ =~= self.spec_matrix());
        }
        m
    }
}

/// For every positive window size, the transform sends the window corners
/// and center to the exact clip corners and origin: `(0, 0)` to `(-1, 1)`,
/// `(w, h)` to `(1, -1)`, and the center `(w/2, h/2)` to `(0, 0)`.
pub proof fn lemma_transform_corners(w: int, h: int)
    requires
        w > 0,
        h > 0,
    ensures
        clip_x_num(w, 0, 1) == -1 * clip_den(w, 1),
        clip_y_num(h, 0, 1) == 1 * clip_den(h, 1),
        clip_x_num(w, w, 1) == 1 * clip_den(w, 1),
        clip_y_num(h, h, 1) == -1 * clip_den(h, 1),
        clip_x_num(w, w, 2) == 0,
        clip_y_num(h, h, 2) == 0,
        clip_den(w, 1) > 0,
        clip_den(h, 1) > 0,
        clip_den(w, 2) > 0,
        clip_den(h, 2) > 0,
{
}

/// The matrix and the point mapping agree: multiplying the point
/// `(x, y, 0, 1)` by the column-major matrix gives, over the scale
/// entries' denominators, exactly the clip coordinates that `apply`
/// yields — the x row is `m[0]·x + m[12]` and the y row `m[5]·y + m[13]`.
pub proof fn lemma_matrix_matches_apply(t: Transform, x: int, y: int)
    requires
        t.wf(),
    ensures
        t.spec_matrix()[0].num * x + t.spec_matrix()[12].num * t.spec_matrix()[0].den
            == clip_x_num(t.width as int, x, 1),
        t.spec_matrix()[0].den == clip_den(t.width as int, 1),
        t.spec_matrix()[5].num * y + t.spec_matrix()[13].num * t.spec_matrix()[5].den
            == clip_y_num(t.height as int, y, 1),
        t.spec_matrix()[5].den == clip_den(t.height as int, 1),
{
    assert((-2i64) * y + 1i64 * (t.height as i64) == clip_y_num(t.height as int, y, 1));
}

/// One vertex of a shape, in logical window coordinates.
#[derive(Clone, Copy, PartialEq, Eq, Structural, Debug)]
pub struct Vertex {
    pub x: i64,
    pub y: i64,
    pub z: i64,
}

/// Description of how vertex data is laid out in a vertex buffer: one
/// tightly packed three-component position attribute per vertex.
#[derive(Clone, Copy, PartialEq, Eq, Structural, Debug)]
pub struct VertexLayout {
    /// Bytes from one vertex to the next.
    pub array_stride: u32,
    /// Byte offset of the position attribute inside a vertex.
    pub attribute_offset: u32,
    /// Shader location the attribute is bound to.
    pub shader_location: u32,
    /// Number of 4-byte components in the attribute.
    pub components: u32,
}

/// The fixed layout of this engine's vertex buffers: a single 3-component
/// position at offset 0 and shader location 0, with a 12-byte stride.
pub open spec fn spec_vertex_layout() -> VertexLayout {
    VertexLayout { array_stride: 12, attribute_offset: 0, shader_location: 0, components: 3 }
}

impl Vertex {
    /// The vertex buffer layout every pipeline of this engine consumes.
    pub fn desc() -> (l: VertexLayout)
        ensures
            l == spec_vertex_layout(),
    {
        VertexLayout { array_stride: 12, attribute_offset: 0, shader_location: 0, components: 3 }
    }
}

} // verus!
