use wgpu_book::frame::{
    frame_plan, handle_key_input, julia_frame, redraw_failed, window_event, EventAction,
    FrameError, FramePlan, JuliaFrame, KeyCode, MouseButton, MouseDrag, RedrawAction, RenderError,
    SurfaceSize, SurfaceStatus, WindowEvent,
};
use wgpu_book::pipeline::{primitive_from_name, IRenderPipeline, IndexFormat, PrimitiveTopology};

#[test]
fn frame_plans() {
    let plan = |reconfigure, draw| Ok(FramePlan { reconfigure, draw });
    assert_eq!(frame_plan(SurfaceStatus::Success), plan(false, true));
    assert_eq!(frame_plan(SurfaceStatus::Suboptimal), plan(true, true));
    assert_eq!(frame_plan(SurfaceStatus::Timeout), plan(false, false));
    assert_eq!(frame_plan(SurfaceStatus::Occluded), plan(false, false));
    assert_eq!(frame_plan(SurfaceStatus::Validation), plan(false, false));
    assert_eq!(frame_plan(SurfaceStatus::Outdated), plan(true, false));
    assert_eq!(frame_plan(SurfaceStatus::Lost), Err(FrameError::LostDevice));
}

#[test]
fn julia_frames() {
    assert_eq!(julia_frame(SurfaceStatus::Success), JuliaFrame::Draw);
    assert_eq!(julia_frame(SurfaceStatus::Suboptimal), JuliaFrame::Draw);
    assert_eq!(julia_frame(SurfaceStatus::Occluded), JuliaFrame::Skip);
    assert_eq!(julia_frame(SurfaceStatus::Timeout), JuliaFrame::Skip);
    assert_eq!(julia_frame(SurfaceStatus::Lost), JuliaFrame::Skip);
    assert_eq!(julia_frame(SurfaceStatus::Outdated), JuliaFrame::Skip);
    assert_eq!(julia_frame(SurfaceStatus::Validation), JuliaFrame::SkipAndReport);
}

#[test]
fn resize_ignores_zero_sides() {
    let mut size = SurfaceSize { width: 800, height: 600 };
    assert!(!size.resize(0, 300));
    assert!(!size.resize(300, 0));
    assert_eq!(size, SurfaceSize { width: 800, height: 600 });
    assert!(size.resize(1024, 768));
    assert_eq!(size, SurfaceSize { width: 1024, height: 768 });
    assert!(size.resize(1024, 768));
    assert_eq!(size, SurfaceSize { width: 1024, height: 768 });
}

#[test]
fn escape_press_exits() {
    assert!(handle_key_input(KeyCode::Escape, true));
    assert!(!handle_key_input(KeyCode::Escape, false));
    assert!(!handle_key_input(KeyCode::Other, true));
}

#[test]
fn right_button_drags() {
    let mut d = MouseDrag::new(true);
    assert!(!d.dragging());
    d.handle_mouse_button(MouseButton::Left, true);
    assert!(!d.dragging());
    d.handle_mouse_button(MouseButton::Right, true);
    assert!(d.dragging());
    d.handle_mouse_button(MouseButton::Middle, false);
    assert!(d.dragging());
    d.handle_mouse_button(MouseButton::Right, false);
    assert!(!d.dragging());
    let mut fixed = MouseDrag::new(false);
    fixed.handle_mouse_button(MouseButton::Right, true);
    assert!(fixed.mouse_pressed);
    assert!(!fixed.dragging());
}

#[test]
fn window_events() {
    assert_eq!(window_event(false, WindowEvent::CloseRequested), EventAction::Ignore);
    assert_eq!(window_event(true, WindowEvent::CloseRequested), EventAction::Exit);
    assert_eq!(
        window_event(true, WindowEvent::Resized { width: 640, height: 480 }),
        EventAction::Resize { width: 640, height: 480 }
    );
    assert_eq!(window_event(true, WindowEvent::RedrawRequested), EventAction::Redraw);
    assert_eq!(window_event(true, WindowEvent::CursorMoved), EventAction::MoveCursor);
    assert_eq!(
        window_event(true, WindowEvent::MouseInput { button: MouseButton::Right, pressed: true }),
        EventAction::MouseButton { button: MouseButton::Right, pressed: true }
    );
    assert_eq!(
        window_event(true, WindowEvent::KeyboardInput { key: Some(KeyCode::Escape), pressed: true }),
        EventAction::Exit
    );
    assert_eq!(
        window_event(true, WindowEvent::KeyboardInput { key: Some(KeyCode::Escape), pressed: false }),
        EventAction::Ignore
    );
    assert_eq!(
        window_event(true, WindowEvent::KeyboardInput { key: None, pressed: true }),
        EventAction::Ignore
    );
    assert_eq!(window_event(true, WindowEvent::Other), EventAction::Ignore);
}

#[test]
fn redraw_failures() {
    assert_eq!(redraw_failed(RenderError::Lost), RedrawAction::ResizeToWindow);
    assert_eq!(redraw_failed(RenderError::Outdated), RedrawAction::ResizeToWindow);
    assert_eq!(redraw_failed(RenderError::OutOfMemory), RedrawAction::ReportOutOfMemoryAndExit);
    assert_eq!(redraw_failed(RenderError::Timeout), RedrawAction::ReportTimeout);
    assert_eq!(redraw_failed(RenderError::Other), RedrawAction::ReportSurfaceError);
}

#[test]
fn pipeline_defaults() {
    let p: IRenderPipeline<u8, u8> = IRenderPipeline::default();
    assert!(p.shader.is_none() && p.vs_shader.is_none() && p.fs_shader.is_none());
    assert!(p.pipeline_layout.is_none());
    assert_eq!(p.topology, PrimitiveTopology::TriangleList);
    assert_eq!(p.strip_index_format, None);
    assert_eq!(p.cull_mode, None);
    assert!(p.is_depth_stencil);
    assert_eq!(p.vs_entry, "vs_main");
    assert_eq!(p.fs_entry, "fs_main");
}

#[test]
fn pipeline_shared_shader_serves_both_stages() {
    let mut p: IRenderPipeline<u8, u16> = IRenderPipeline::default();
    p.shader = Some(7);
    p.vs_shader = Some(1);
    p.pipeline_layout = Some(3);
    p.topology = PrimitiveTopology::LineStrip;
    p.strip_index_format = Some(IndexFormat::Uint32);
    p.is_depth_stencil = false;
    let st = p.new().unwrap();
    assert_eq!((st.vs_shader, st.fs_shader, st.layout), (7, 7, 3));
    assert_eq!(st.topology, PrimitiveTopology::LineStrip);
    assert_eq!(st.strip_index_format, Some(IndexFormat::Uint32));
    assert!(!st.depth_stencil);
    assert_eq!((p.vs_shader, p.fs_shader), (Some(7), Some(7)));
}

#[test]
fn pipeline_separate_shaders_and_missing_parts() {
    let mut p: IRenderPipeline<u8, u16> = IRenderPipeline::default();
    p.vs_shader = Some(1);
    p.fs_shader = Some(2);
    assert!(p.new().is_none());
    p.pipeline_layout = Some(9);
    let st = p.new().unwrap();
    assert_eq!((st.vs_shader, st.fs_shader, st.layout), (1, 2, 9));
    assert!(st.depth_stencil);
    p.fs_shader = None;
    assert!(p.new().is_none());
}

#[test]
fn primitive_names() {
    assert_eq!(primitive_from_name("point-list"), (PrimitiveTopology::PointList, None));
    assert_eq!(primitive_from_name("line-list"), (PrimitiveTopology::LineList, None));
    assert_eq!(
        primitive_from_name("line-strip"),
        (PrimitiveTopology::LineStrip, Some(IndexFormat::Uint32))
    );
    assert_eq!(primitive_from_name("triangle-list"), (PrimitiveTopology::PointList, None));
    assert_eq!(primitive_from_name(""), (PrimitiveTopology::PointList, None));
}

#[test]
fn resize_twice_is_resize_once() {
    let mut a = SurfaceSize { width: 10, height: 20 };
    let mut b = a;
    a.resize(300, 200);
    b.resize(300, 200);
    b.resize(300, 200);
    assert_eq!(a, b);
    a.resize(0, 0);
    assert_eq!(a, SurfaceSize { width: 300, height: 200 });
}
