use quadpaint::context::{RenderContext, SurfaceError, SurfaceFormat, SurfaceStatus};
use quadpaint::pass::DrawCall;
use quadpaint::scene::{Action, InputEvent, Scene};
use quadpaint::widgets::{Event, Rect, Widget};

fn formats_with_srgb() -> Vec<SurfaceFormat> {
    vec![
        SurfaceFormat { id: 10, srgb: false },
        SurfaceFormat { id: 11, srgb: true },
        SurfaceFormat { id: 12, srgb: true },
    ]
}

fn new_context(width: u32, height: u32) -> RenderContext {
    RenderContext::new(width, height, &formats_with_srgb(), &vec![7], &vec![3])
}

#[test]
fn format_negotiation_prefers_srgb() {
    let ctx = new_context(640, 480);
    assert_eq!(ctx.surface_config.format, SurfaceFormat { id: 11, srgb: true });
    assert_eq!(ctx.surface_config.present_mode, 7);
    assert_eq!(ctx.surface_config.alpha_mode, 3);
}

#[test]
fn format_negotiation_falls_back_to_first() {
    let formats = vec![
        SurfaceFormat { id: 20, srgb: false },
        SurfaceFormat { id: 21, srgb: false },
    ];
    let ctx = RenderContext::new(640, 480, &formats, &vec![0], &vec![0]);
    assert_eq!(ctx.surface_config.format, SurfaceFormat { id: 20, srgb: false });
}

#[test]
fn resize_guard_ignores_zero_dimensions() {
    let mut ctx = new_context(640, 480);
    ctx.resize(800, 600);
    assert_eq!((ctx.window_width, ctx.window_height), (800, 600));
    assert_eq!((ctx.surface_config.width, ctx.surface_config.height), (800, 600));

    ctx.resize(0, 900);
    assert_eq!((ctx.window_width, ctx.window_height), (800, 600));
    assert_eq!((ctx.surface_config.width, ctx.surface_config.height), (800, 600));

    ctx.resize(900, 0);
    assert_eq!((ctx.window_width, ctx.window_height), (800, 600));
    assert_eq!((ctx.surface_config.width, ctx.surface_config.height), (800, 600));

    ctx.resize(0, 0);
    assert_eq!((ctx.window_width, ctx.window_height), (800, 600));
    assert_eq!((ctx.surface_config.width, ctx.surface_config.height), (800, 600));
    assert_eq!((ctx.text.view_width, ctx.text.view_height), (800, 600));
}

#[test]
fn render_issues_one_draw_per_rectangle() {
    let mut ctx = new_context(640, 480);
    let mut rects: Vec<Rect> = Vec::new();
    rects.push(Rect::new(0, 0, 10, 10, &mut ctx));
    rects.push(Rect::new(30, 40, 20, 20, &mut ctx));
    rects.push(Rect::new(100, 100, 50, 5, &mut ctx));

    let frame = ctx.render(&rects, SurfaceStatus::Available).unwrap();
    assert_eq!(frame.pass.draws.len(), 3);
    for (i, rect) in rects.iter().enumerate() {
        let expected = DrawCall {
            index_count: 6,
            instance_count: 1,
            vertex_buffer: rect.vertex_buffer,
            index_buffer: rect.shared_index,
        };
        assert_eq!(frame.pass.draws[i], expected);
    }
    assert!(frame.pass.pipeline_bound);
    assert!(frame.pass.group0_bound);
    assert_eq!(frame.pass.text_batches, 1);
    assert!(frame.presented);

    // one label per rectangle, anchored at the rectangle
    assert_eq!(ctx.text.queued.len(), 3);
    for (section, rect) in ctx.text.queued.iter().zip(rects.iter()) {
        assert_eq!(section.text.as_str(), "(;-;)");
        assert_eq!((section.x, section.y), (rect.x, rect.y));
        assert_eq!((section.bound_width, section.bound_height), (rect.width, rect.height));
    }
}

#[test]
fn render_rewrites_uniforms_from_live_size() {
    let mut ctx = new_context(640, 480);
    let rects: Vec<Rect> = Vec::new();
    ctx.resize(1024, 768);
    let frame = ctx.render(&rects, SurfaceStatus::Available).unwrap();
    assert_eq!((frame.transform.width, frame.transform.height), (1024, 768));
    assert_eq!((frame.size_width, frame.size_height), (1024, 768));
    assert_eq!(ctx.window_bind_group.transform.width, 1024);
    assert_eq!(ctx.window_bind_group.transform.height, 768);
    assert_eq!((ctx.window_bind_group.size_width, ctx.window_bind_group.size_height), (1024, 768));
}

#[test]
fn render_failures_leave_state_untouched() {
    let mut ctx = new_context(640, 480);
    let mut rects: Vec<Rect> = Vec::new();
    rects.push(Rect::new(0, 0, 10, 10, &mut ctx));
    let allocations = ctx.cache.allocation_count();

    assert_eq!(ctx.render(&rects, SurfaceStatus::Lost).unwrap_err(), SurfaceError::Lost);
    assert_eq!(ctx.render(&rects, SurfaceStatus::Outdated).unwrap_err(), SurfaceError::Outdated);
    assert_eq!(ctx.render(&rects, SurfaceStatus::Timeout).unwrap_err(), SurfaceError::Timeout);
    assert_eq!(
        ctx.render(&rects, SurfaceStatus::OutOfMemory).unwrap_err(),
        SurfaceError::OutOfMemory,
    );
    assert_eq!(ctx.cache.allocation_count(), allocations);
    assert_eq!((ctx.window_width, ctx.window_height), (640, 480));
}

#[test]
fn rectangle_widget_contract() {
    let mut ctx = new_context(640, 480);
    let mut rect = Rect::new(5, 6, 10, 12, &mut ctx);
    let bounds = rect.bounds();
    assert_eq!((bounds.x, bounds.y, bounds.width, bounds.height), (5, 6, 10, 12));

    // events are taken in and ignored
    let before = rect;
    rect.process_event(&Event::MouseEnter);
    rect.process_event(&Event::MouseExit);
    rect.process_event(&Event::Clicked);
    assert_eq!(rect, before);
}

#[test]
fn first_rectangle_creates_shared_buffer_once() {
    let mut ctx = new_context(640, 480);
    assert_eq!(ctx.cache.allocation_count(), 0);
    let a = Rect::new(0, 0, 10, 10, &mut ctx);
    // the first shape allocates its vertex buffer and the shared indices
    assert_eq!(ctx.cache.allocation_count(), 2);
    let b = Rect::new(1, 1, 10, 10, &mut ctx);
    // later shapes only allocate their own vertex buffer
    assert_eq!(ctx.cache.allocation_count(), 3);
    assert_eq!(a.shared_index, b.shared_index);
    assert_ne!(a.vertex_buffer, b.vertex_buffer);
}

#[test]
fn click_with_cursor_adds_one_rectangle() {
    let mut scene = Scene::new(new_context(640, 480));
    assert_eq!(scene.rects.len(), 1);

    let (action, frame) = scene.handle_event(InputEvent::CursorMoved { x: 50, y: 50 });
    assert_eq!(action, Action::Continue);
    assert!(frame.is_none());

    let (action, frame) = scene.handle_event(InputEvent::LeftMousePressed);
    assert_eq!(action, Action::Redraw);
    assert!(frame.is_none());
    assert_eq!(scene.rects.len(), 2);
    let added = &scene.rects[1];
    assert_eq!((added.x, added.y, added.width, added.height), (50, 50, 20, 20));
}

#[test]
fn click_without_cursor_adds_nothing() {
    let mut scene = Scene::new(new_context(640, 480));
    scene.handle_event(InputEvent::CursorMoved { x: 50, y: 50 });
    scene.handle_event(InputEvent::CursorLeft);
    let (action, _) = scene.handle_event(InputEvent::LeftMousePressed);
    assert_eq!(action, Action::Continue);
    assert_eq!(scene.rects.len(), 1);
}

#[test]
fn escape_and_close_exit_the_loop() {
    let mut scene = Scene::new(new_context(640, 480));
    let (action, _) = scene.handle_event(InputEvent::EscapePressed);
    assert_eq!(action, Action::Exit);
    let (action, _) = scene.handle_event(InputEvent::CloseRequested);
    assert_eq!(action, Action::Exit);
    assert_eq!(scene.rects.len(), 1);
}

#[test]
fn out_of_memory_is_fatal_other_errors_drop_the_frame() {
    let mut scene = Scene::new(new_context(640, 480));
    let (action, frame) = scene.handle_event(InputEvent::RedrawRequested {
        acquire: SurfaceStatus::OutOfMemory,
    });
    assert_eq!(action, Action::Exit);
    assert!(frame.is_none());

    let (action, frame) = scene.handle_event(InputEvent::RedrawRequested {
        acquire: SurfaceStatus::Timeout,
    });
    assert_eq!(action, Action::Continue);
    assert!(frame.is_none());
    assert_eq!(scene.rects.len(), 1);
}

#[test]
fn lost_surface_reconfigures_and_recovers() {
    // start with one rectangle at the origin, 10 by 10
    let mut scene = Scene::new(new_context(640, 480));
    assert_eq!(scene.rects.len(), 1);
    assert_eq!(
        (scene.rects[0].x, scene.rects[0].y, scene.rects[0].width, scene.rects[0].height),
        (0, 0, 10, 10),
    );

    // resize to 800 x 600
    let (action, _) = scene.handle_event(InputEvent::Resized { width: 800, height: 600 });
    assert_eq!(action, Action::Continue);

    // render once: the frame's transform maps (800, 600) to the
    // bottom-right clip corner (1, -1) exactly
    let (action, frame) = scene.handle_event(InputEvent::RedrawRequested {
        acquire: SurfaceStatus::Available,
    });
    assert_eq!(action, Action::Continue);
    let frame = frame.expect("a presentable target was available");
    assert_eq!((frame.transform.width, frame.transform.height), (800, 600));
    let (cx, cy) = frame.transform.apply(800, 600);
    assert_eq!(cx.num, cx.den);
    assert_eq!(cy.num, -cy.den);
    assert_eq!(frame.pass.draws.len(), 1);

    // a lost surface: reconfigure at the current size, drop the frame
    let (action, frame) = scene.handle_event(InputEvent::RedrawRequested {
        acquire: SurfaceStatus::Lost,
    });
    assert_eq!(action, Action::Continue);
    assert!(frame.is_none());
    assert_eq!(
        (scene.render_context.surface_config.width, scene.render_context.surface_config.height),
        (800, 600),
    );

    // the next redraw succeeds, with the rectangle collection untouched
    let (action, frame) = scene.handle_event(InputEvent::RedrawRequested {
        acquire: SurfaceStatus::Available,
    });
    assert_eq!(action, Action::Continue);
    assert!(frame.is_some());
    assert_eq!(scene.rects.len(), 1);
    assert_eq!(
        (scene.rects[0].x, scene.rects[0].y, scene.rects[0].width, scene.rects[0].height),
        (0, 0, 10, 10),
    );
}
