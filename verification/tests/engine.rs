use quadpaint::bind_group::{BindGroupInstance, WindowBindGroup};
use quadpaint::bind_group::window_layout;
use quadpaint::geometry::{quad_corners, quad_indices, BufferRecord, GeometryCache};
use quadpaint::math::{compute_transform, Frac, Vertex};
use quadpaint::pass::{clear_color, RenderPass};
use quadpaint::text::{widget_label, TextOverlay, TextSection};
use quadpaint::widgets::Bounds;

#[test]
fn transform_maps_corners_exactly() {
    let t = compute_transform(800, 600);
    // top-left window corner -> (-1, 1)
    let (cx, cy) = t.apply(0, 0);
    assert_eq!((cx.num, cx.den), (-800, 800));
    assert_eq!((cy.num, cy.den), (600, 600));
    // bottom-right window corner -> (1, -1)
    let (dx, dy) = t.apply(800, 600);
    assert_eq!((dx.num, dx.den), (800, 800));
    assert_eq!((dy.num, dy.den), (-600, 600));
    // center -> (0, 0)
    let (ex, ey) = t.apply(400, 300);
    assert_eq!(ex.num, 0);
    assert_eq!(ey.num, 0);
}

#[test]
fn transform_corners_odd_size() {
    let t = compute_transform(3, 7);
    let (cx, cy) = t.apply(0, 0);
    assert_eq!(cx.num, -cx.den);
    assert_eq!(cy.num, cy.den);
    let (dx, dy) = t.apply(3, 7);
    assert_eq!(dx.num, dx.den);
    assert_eq!(dy.num, -dy.den);
}

#[test]
fn transform_matrix_entries() {
    let t = compute_transform(800, 600);
    let m = t.matrix();
    assert_eq!(m.len(), 16);
    assert_eq!(m[0], Frac { num: 2, den: 800 });
    assert_eq!(m[5], Frac { num: -2, den: 600 });
    assert_eq!(m[10], Frac { num: 1, den: 1 });
    assert_eq!(m[12], Frac { num: -1, den: 1 });
    assert_eq!(m[13], Frac { num: 1, den: 1 });
    assert_eq!(m[15], Frac { num: 1, den: 1 });
    for i in [1usize, 2, 3, 4, 6, 7, 8, 9, 11, 14] {
        assert_eq!(m[i], Frac { num: 0, den: 1 });
    }
}

#[test]
fn vertex_layout_is_tightly_packed() {
    let l = Vertex::desc();
    assert_eq!(l.array_stride, 12);
    assert_eq!(l.attribute_offset, 0);
    assert_eq!(l.shader_location, 0);
    assert_eq!(l.components, 3);
}

#[test]
fn quad_triangulation_pattern() {
    assert_eq!(quad_indices(), vec![0u16, 1, 2, 2, 3, 0]);
}

#[test]
fn quad_corner_winding_order() {
    let v = quad_corners(5, 7, 20, 30);
    assert_eq!(v.len(), 4);
    assert_eq!(v[0], Vertex { x: 5, y: 7, z: 0 });
    assert_eq!(v[1], Vertex { x: 25, y: 7, z: 0 });
    assert_eq!(v[2], Vertex { x: 25, y: 37, z: 0 });
    assert_eq!(v[3], Vertex { x: 5, y: 37, z: 0 });
}

#[test]
fn shared_index_buffer_is_idempotent() {
    let mut cache = GeometryCache::new();
    assert_eq!(cache.allocation_count(), 0);
    let first = cache.ensure_shared_index_buffer();
    for _ in 0..5 {
        let again = cache.ensure_shared_index_buffer();
        assert_eq!(again, first);
    }
    // exactly one allocation, whatever the number of calls
    assert_eq!(cache.allocation_count(), 1);
    match &cache.buffers[first.id] {
        BufferRecord::Index { indices } => assert_eq!(indices, &vec![0u16, 1, 2, 2, 3, 0]),
        BufferRecord::Vertex { .. } => panic!("shared buffer must hold indices"),
    }
}

#[test]
fn vertex_buffers_are_never_pooled() {
    let mut cache = GeometryCache::new();
    let a = cache.make_vertex_buffer(quad_corners(0, 0, 1, 1));
    let b = cache.make_vertex_buffer(quad_corners(0, 0, 1, 1));
    assert_ne!(a, b);
    assert_eq!(cache.allocation_count(), 2);
}

#[test]
fn clear_color_is_dark_blue_gray() {
    let c = clear_color();
    assert_eq!(c.red_tenths, 1);
    assert_eq!(c.green_tenths, 2);
    assert_eq!(c.blue_tenths, 3);
    assert_eq!(c.alpha_tenths, 10);
}

#[test]
fn bounds_hit_testing_includes_edges() {
    let b = Bounds { x: 10, y: 20, width: 30, height: 40 };
    assert!(b.is_inside(10, 20));
    assert!(b.is_inside(40, 60));
    assert!(b.is_inside(25, 35));
    assert!(!b.is_inside(9, 20));
    assert!(!b.is_inside(41, 60));
    assert!(!b.is_inside(25, 61));
}

#[test]
fn window_bind_group_layout_and_contents() {
    let layout = window_layout();
    assert_eq!(layout.len(), 2);
    assert_eq!(layout[0].binding, 0);
    assert_eq!(layout[1].binding, 1);
    for entry in &layout {
        assert!(entry.visible_vertex);
        assert!(entry.visible_fragment);
        assert!(entry.uniform_buffer);
        assert!(!entry.dynamic_offset);
    }
    let g = WindowBindGroup::new(640, 480);
    assert_eq!(g.transform.width, 640);
    assert_eq!(g.transform.height, 480);
    assert_eq!((g.size_width, g.size_height), (640, 480));
    assert_eq!(g.layout_descriptor(), layout);
}

#[test]
fn window_bind_group_write_replaces_contents() {
    let mut g = WindowBindGroup::new(640, 480);
    let t = compute_transform(800, 600);
    g.write(t, 800, 600);
    assert_eq!(g.transform.width, 800);
    assert_eq!(g.transform.height, 600);
    assert_eq!((g.size_width, g.size_height), (800, 600));
}

#[test]
fn bind_group_binds_slot_zero() {
    let g = WindowBindGroup::new(640, 480);
    let mut pass = RenderPass::begin(clear_color());
    assert!(!pass.group0_bound);
    g.bind(1, &mut pass);
    assert!(!pass.group0_bound);
    g.bind(0, &mut pass);
    assert!(pass.group0_bound);
}

#[test]
fn text_overlay_queue_replaces_and_resizes() {
    let mut overlay = TextOverlay::new(640, 480);
    let one = vec![TextSection { text: widget_label(), x: 1, y: 2, bound_width: 3, bound_height: 4 }];
    overlay.queue(one);
    assert_eq!(overlay.queued.len(), 1);
    assert_eq!(overlay.queued[0].text.as_str(), "(;-;)");
    let two = vec![
        TextSection { text: widget_label(), x: 0, y: 0, bound_width: 5, bound_height: 5 },
        TextSection { text: widget_label(), x: 9, y: 9, bound_width: 5, bound_height: 5 },
    ];
    overlay.queue(two);
    assert_eq!(overlay.queued.len(), 2);
    overlay.resize_view(800, 600);
    assert_eq!((overlay.view_width, overlay.view_height), (800, 600));
    assert_eq!(overlay.queued.len(), 2);

    let mut pass = RenderPass::begin(clear_color());
    assert_eq!(pass.text_batches, 0);
    overlay.draw(&mut pass);
    assert_eq!(pass.text_batches, 1);
    assert_eq!(pass.draws.len(), 0);
}
