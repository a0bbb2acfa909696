//! Per-frame control of the windowed examples: what happens on each window
//! event, on each outcome of acquiring the next surface texture, and on a
//! resize.
use vstd::prelude::*;

verus! {

// ---------------------------------------------------------------------------
// Surface acquisition
// ---------------------------------------------------------------------------

/// The outcome of asking the surface for its next texture.
#[derive(Clone, Copy, Debug, PartialEq, Eq)]
pub enum SurfaceStatus {
    /// A texture was acquired.
    Success,
    /// A texture was acquired, but the surface no longer matches its
    /// configuration.
    Suboptimal,
    /// Acquiring timed out.
    Timeout,
    /// The window is hidden.
    Occluded,
    /// The surface configuration is out of date.
    Outdated,
    /// The surface is lost.
    Lost,
    /// Acquiring raised a validation error.
    Validation,
}

/// What to do with a frame: reconfigure the surface first or not, and draw
/// the frame or skip it.
#[derive(Clone, Copy, Debug, PartialEq, Eq)]
pub struct FramePlan {
    pub reconfigure: bool,
    pub draw: bool,
}

/// The error a frame ends with when the surface cannot be recovered.
#[derive(Clone, Copy, Debug, PartialEq, Eq)]
pub enum FrameError {
    /// The surface, and with it the device, is lost.
    LostDevice,
}

/// Whether a frame on this status reconfigures the surface.
pub open spec fn spec_reconfigures(status: SurfaceStatus) -> bool {
    status == SurfaceStatus::Suboptimal || status == SurfaceStatus::Outdated
}

/// Whether a frame on this status is drawn.
pub open spec fn spec_draws(status: SurfaceStatus) -> bool {
    status == SurfaceStatus::Success || status == SurfaceStatus::Suboptimal
}

/// The plan for a frame, given how acquiring its texture went: a suboptimal
/// texture is drawn after reconfiguring; a timeout, a hidden window or a
/// validation error skip the frame; an outdated surface is reconfigured and
/// the frame skipped; a lost surface ends rendering with an error.
pub fn frame_plan(status: SurfaceStatus) -> (plan: Result<FramePlan, FrameError>)
    ensures
        status == SurfaceStatus::Lost <==> plan is Err,
        plan matches Err(e) ==> e == FrameError::LostDevice,
        plan matches Ok(p) ==> p.reconfigure == spec_reconfigures(status) && p.draw == spec_draws(
            status,
        ),
        plan matches Ok(p) ==> (p.draw <==> (status == SurfaceStatus::Success || status
            == SurfaceStatus::Suboptimal)),
        plan matches Ok(p) ==> (p.reconfigure <==> (status == SurfaceStatus::Suboptimal || status
            == SurfaceStatus::Outdated)),
{
    match status {
        SurfaceStatus::Success => Ok(FramePlan { reconfigure: false, draw: true }),
        SurfaceStatus::Suboptimal => Ok(FramePlan { reconfigure: true, draw: true }),
        SurfaceStatus::Timeout | SurfaceStatus::Occluded | SurfaceStatus::Validation => {
            // Skip this frame
            Ok(FramePlan { reconfigure: false, draw: false })
        },
        SurfaceStatus::Outdated => Ok(FramePlan { reconfigure: true, draw: false }),
        SurfaceStatus::Lost => Err(FrameError::LostDevice),
    }
}

/// What the Julia set renderer does with a frame.
#[derive(Clone, Copy, Debug, PartialEq, Eq)]
pub enum JuliaFrame {
    /// Draw the frame.
    Draw,
    /// Skip the frame.
    Skip,
    /// Skip the frame and report the status.
    SkipAndReport,
}

/// The Julia set renderer's handling of a frame: it draws on any acquired
/// texture without reconfiguring, skips quietly on a timeout, a hidden
/// window, a lost or an outdated surface, and reports any other status.
pub fn julia_frame(status: SurfaceStatus) -> (f: JuliaFrame)
    ensures
        f == JuliaFrame::Draw <==> spec_draws(status),
        f == JuliaFrame::Draw <==> (status == SurfaceStatus::Success || status
            == SurfaceStatus::Suboptimal),
        f == JuliaFrame::SkipAndReport <==> status == SurfaceStatus::Validation,
{
    match status {
        SurfaceStatus::Success | SurfaceStatus::Suboptimal => JuliaFrame::Draw,
        SurfaceStatus::Occluded | SurfaceStatus::Timeout => JuliaFrame::Skip,
        SurfaceStatus::Lost | SurfaceStatus::Outdated => JuliaFrame::Skip,
        SurfaceStatus::Validation => JuliaFrame::SkipAndReport,
    }
}

// ---------------------------------------------------------------------------
// Resizing
// ---------------------------------------------------------------------------

/// The size the surface is configured with.
#[derive(Clone, Copy, Debug, PartialEq, Eq)]
pub struct SurfaceSize {
    pub width: u32,
    pub height: u32,
}

impl SurfaceSize {
    /// Takes a new window size. A size with a zero side (a minimised window)
    /// is ignored; any other becomes the surface size. Returns whether the
    /// surface must be reconfigured.
    pub fn resize(&mut self, width: u32, height: u32) -> (changed: bool)
        ensures
            changed == (width > 0 && height > 0),
            changed ==> final(self).width == width && final(self).height == height,
            !changed ==> *final(self) == *old(self),
    {
        if width > 0 && height > 0 {
            self.width = width;
            self.height = height;
            true
        } else {
            false
        }
    }
}

/// The surface size after a resize request.
pub open spec fn resized(s: SurfaceSize, width: u32, height: u32) -> SurfaceSize {
    if width > 0 && height > 0 {
        SurfaceSize { width, height }
    } else {
        s
    }
}

/// Law: resizing twice to the same size is resizing once, a later resize to a
/// valid size overrides an earlier one, and no resize gives the surface a zero
/// side it did not have.
pub proof fn lemma_resize_idempotent(s: SurfaceSize, w1: u32, h1: u32, w2: u32, h2: u32)
    ensures
        resized(resized(s, w1, h1), w1, h1) == resized(s, w1, h1),
        w2 > 0 && h2 > 0 ==> resized(resized(s, w1, h1), w2, h2) == resized(s, w2, h2),
        resized(s, w1, h1).width == 0 ==> s.width == 0,
        resized(s, w1, h1).height == 0 ==> s.height == 0,
{
}

// ---------------------------------------------------------------------------
// Input
// ---------------------------------------------------------------------------

/// The keys the examples react to.
#[derive(Clone, Copy, Debug, PartialEq, Eq)]
pub enum KeyCode {
    Escape,
    /// Any other identified key.
    Other,
}

/// Whether a key event closes the example: pressing Escape does.
pub fn handle_key_input(key: KeyCode, pressed: bool) -> (exit: bool)
    ensures
        exit == (key == KeyCode::Escape && pressed),
{
    match (key, pressed) {
        (KeyCode::Escape, true) => true,
        _ => false,
    }
}

/// A mouse button.
#[derive(Clone, Copy, Debug, PartialEq, Eq)]
pub enum MouseButton {
    Left,
    Right,
    Middle,
    Back,
    Forward,
    Other(u16),
}

/// The mouse state of the ray-marched fractal examples: whether the right
/// button is held, and whether the example lets the mouse turn the view.
#[derive(Clone, Copy, Debug, PartialEq, Eq)]
pub struct MouseDrag {
    pub mouse_pressed: bool,
    pub mouse_control: bool,
}

impl MouseDrag {
    /// No button held.
    pub fn new(mouse_control: bool) -> (d: MouseDrag)
        ensures
            d.mouse_control == mouse_control,
            !d.mouse_pressed,
    {
        MouseDrag { mouse_pressed: false, mouse_control }
    }

    /// Records a button press or release: only the right button counts.
    pub fn handle_mouse_button(&mut self, button: MouseButton, pressed: bool)
        ensures
            final(self).mouse_control == old(self).mouse_control,
            final(self).mouse_pressed == (if button == MouseButton::Right {
                pressed
            } else {
                old(self).mouse_pressed
            }),
    {
        match button {
            MouseButton::Right => self.mouse_pressed = pressed,
            _ => {},
        }
    }

    /// Whether a cursor move turns the view: while the right button is held,
    /// in an example that allows it.
    pub fn dragging(&self) -> (d: bool)
        ensures
            d == (self.mouse_pressed && self.mouse_control),
    {
        self.mouse_pressed && self.mouse_control
    }
}

// ---------------------------------------------------------------------------
// Window events
// ---------------------------------------------------------------------------

/// The window events the examples react to.
#[derive(Clone, Copy, Debug, PartialEq, Eq)]
pub enum WindowEvent {
    CloseRequested,
    Resized { width: u32, height: u32 },
    RedrawRequested,
    CursorMoved,
    MouseInput { button: MouseButton, pressed: bool },
    /// A key event; `key` is `None` for a key the platform could not identify.
    KeyboardInput { key: Option<KeyCode>, pressed: bool },
    Other,
}

/// What the application does on a window event.
#[derive(Clone, Copy, Debug, PartialEq, Eq)]
pub enum EventAction {
    Ignore,
    Exit,
    Resize { width: u32, height: u32 },
    Redraw,
    MoveCursor,
    MouseButton { button: MouseButton, pressed: bool },
}

/// The action for a window event, for an application whose render state is
/// `ready` or not yet created (in which case every event is ignored).
pub open spec fn spec_window_event(ready: bool, event: WindowEvent) -> EventAction {
    if !ready {
        EventAction::Ignore
    } else {
        match event {
            WindowEvent::CloseRequested => EventAction::Exit,
            WindowEvent::Resized { width, height } => EventAction::Resize { width, height },
            WindowEvent::RedrawRequested => EventAction::Redraw,
            WindowEvent::CursorMoved => EventAction::MoveCursor,
            WindowEvent::MouseInput { button, pressed } => EventAction::MouseButton {
                button,
                pressed,
            },
            WindowEvent::KeyboardInput { key, pressed } => {
                if key == Some(KeyCode::Escape) && pressed {
                    EventAction::Exit
                } else {
                    EventAction::Ignore
                }
            },
            WindowEvent::Other => EventAction::Ignore,
        }
    }
}

/// The action for a window event: close or Escape exit, a resize resizes, a
/// redraw request draws, cursor and button events go to the mouse state, and
/// everything is ignored until the render state exists.
pub fn window_event(ready: bool, event: WindowEvent) -> (a: EventAction)
    ensures
        a == spec_window_event(ready, event),
        !ready ==> a == EventAction::Ignore,
        ready && event == WindowEvent::CloseRequested ==> a == EventAction::Exit,
        ready ==> (event matches WindowEvent::Resized { width, height } ==> a == (
        EventAction::Resize { width, height })),
        ready && event == WindowEvent::RedrawRequested ==> a == EventAction::Redraw,
        ready && event == WindowEvent::CursorMoved ==> a == EventAction::MoveCursor,
        ready ==> (event matches WindowEvent::MouseInput { button, pressed } ==> a == (
        EventAction::MouseButton { button, pressed })),
        ready ==> (event matches WindowEvent::KeyboardInput { key, pressed } ==> ((a
            == EventAction::Exit <==> (key == Some(KeyCode::Escape) && pressed)) && (a
            != EventAction::Exit ==> a == EventAction::Ignore))),
        ready && event == WindowEvent::Other ==> a == EventAction::Ignore,
{
    if !ready {
        return EventAction::Ignore;
    }
    match event {
        WindowEvent::CloseRequested => EventAction::Exit,
        WindowEvent::Resized { width, height } => EventAction::Resize { width, height },
        WindowEvent::RedrawRequested => EventAction::Redraw,
        WindowEvent::CursorMoved => EventAction::MoveCursor,
        WindowEvent::MouseInput { button, pressed } => EventAction::MouseButton { button, pressed },
        WindowEvent::KeyboardInput { key: Some(code), pressed } => {
            if handle_key_input(code, pressed) {
                EventAction::Exit
            } else {
                EventAction::Ignore
            }
        },
        WindowEvent::KeyboardInput { key: None, .. } => EventAction::Ignore,
        WindowEvent::Other => EventAction::Ignore,
    }
}

/// Law: before the render state exists every event is ignored; once it
/// exists, only a close request or a press of Escape exits, a key event is
/// otherwise ignored, and a mouse-button event is handed on with its own
/// button and pressed flag, a resize with its own size.
pub proof fn lemma_window_event_dispatch(event: WindowEvent)
    ensures
        spec_window_event(false, event) == EventAction::Ignore,
        spec_window_event(true, event) == EventAction::Exit <==> (event == WindowEvent::CloseRequested
            || event == (WindowEvent::KeyboardInput { key: Some(KeyCode::Escape), pressed: true })),
        event matches WindowEvent::KeyboardInput { key, pressed } ==> (spec_window_event(true, event)
            == EventAction::Ignore <==> !(key == Some(KeyCode::Escape) && pressed)),
        event matches WindowEvent::MouseInput { button, pressed } ==> spec_window_event(true, event)
            == (EventAction::MouseButton { button, pressed }),
        event matches WindowEvent::Resized { width, height } ==> spec_window_event(true, event) == (
        EventAction::Resize { width, height }),
        spec_window_event(true, event) matches EventAction::MouseButton { button, pressed } ==> event
            == (WindowEvent::MouseInput { button, pressed }),
{
}

/// Why drawing a frame failed.
#[derive(Clone, Copy, Debug, PartialEq, Eq)]
pub enum RenderError {
    Lost,
    Outdated,
    OutOfMemory,
    Timeout,
    Other,
}

/// What the application does after a failed redraw.
#[derive(Clone, Copy, Debug, PartialEq, Eq)]
pub enum RedrawAction {
    /// Reconfigure the surface for the window's current size.
    ResizeToWindow,
    /// Report that memory ran out and exit.
    ReportOutOfMemoryAndExit,
    /// Report the timeout and go on with the next frame.
    ReportTimeout,
    /// Report a surface error and go on with the next frame.
    ReportSurfaceError,
}

/// The response to a failed redraw: a lost or outdated surface is rebuilt
/// for the window's size, running out of memory ends the application, and a
/// timeout or any other error is reported.
pub fn redraw_failed(err: RenderError) -> (a: RedrawAction)
    ensures
        a == RedrawAction::ResizeToWindow <==> (err == RenderError::Lost || err
            == RenderError::Outdated),
        a == RedrawAction::ReportOutOfMemoryAndExit <==> err == RenderError::OutOfMemory,
        a == RedrawAction::ReportTimeout <==> err == RenderError::Timeout,
        a == RedrawAction::ReportSurfaceError <==> err == RenderError::Other,
{
    match err {
        // Rebuild the surface if it's lost or outdated
        RenderError::Lost | RenderError::Outdated => RedrawAction::ResizeToWindow,
        // Terminate application if memory is low
        RenderError::OutOfMemory => RedrawAction::ReportOutOfMemoryAndExit,
        // If a frame takes too long to display, warn and move on to the next frame
        RenderError::Timeout => RedrawAction::ReportTimeout,
        RenderError::Other => RedrawAction::ReportSurfaceError,
    }
}

} // verus!
