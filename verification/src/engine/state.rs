use vstd::prelude::*;
use crate::control::{InputState, KeyCode};

verus! {

/// Width and height, in physical pixels, of the surface being drawn to.
#[derive(Clone, Copy, Debug, PartialEq, Eq, Structural)]
pub struct SurfaceSize {
    pub width: u32,
    pub height: u32,
}

/// What the viewer keeps between window events: the size its surface is
/// configured with and the movement keys held.
#[derive(Clone, Copy, Debug, PartialEq, Eq, Structural)]
pub struct ViewerState {
    pub surface: SurfaceSize,
    pub input: InputState,
}

/// The window events the viewer reacts to; every other event is `Other`.
#[derive(Clone, Copy, Debug, PartialEq, Eq, Structural)]
pub enum WindowEvent {
    CloseRequested,
    Resized { width: u32, height: u32 },
    KeyboardInput { code: KeyCode, pressed: bool },
    RedrawRequested,
    Other,
}

/// What the surrounding program has to do after a window event.
#[derive(Clone, Copy, Debug, PartialEq, Eq, Structural)]
pub enum EventAction {
    /// Leave the event loop.
    Exit,
    /// Configure the surface (and its depth buffer) with the new `surface` size.
    Reconfigure,
    /// Advance the camera and draw a frame.
    UpdateAndRender,
    /// Nothing to do.
    Nothing,
}

/// The outcome of asking the surface for the texture of the next frame.
#[derive(Clone, Copy, Debug, PartialEq, Eq, Structural)]
pub enum SurfaceStatus {
    Success,
    Suboptimal,
    Timeout,
    Occluded,
    Outdated,
    Lost,
    Validation,
}

/// What to do with the frame after acquiring the surface texture.
#[derive(Clone, Copy, Debug, PartialEq, Eq, Structural)]
pub enum FrameDecision {
    /// Draw into the acquired texture and present it.
    Draw,
    /// Configure the surface again with its current size and skip the frame.
    Reconfigure,
    /// Skip the frame.
    Skip,
}

/// A surface can only be configured with a size that is nonzero both ways.
pub open spec fn is_drawable(width: u32, height: u32) -> bool {
    width > 0 && height > 0
}

/// The surface size after a resize request: taken when both sides are
/// nonzero, ignored otherwise.
pub open spec fn resized(current: SurfaceSize, width: u32, height: u32) -> SurfaceSize {
    if is_drawable(width, height) {
        SurfaceSize { width, height }
    } else {
        current
    }
}

/// The state and action that follow a window event.
pub open spec fn step_spec(s: ViewerState, event: WindowEvent) -> (ViewerState, EventAction) {
    match event {
        WindowEvent::CloseRequested => (s, EventAction::Exit),
        WindowEvent::Resized { width, height } => (
            ViewerState { surface: resized(s.surface, width, height), ..s },
            if is_drawable(width, height) { EventAction::Reconfigure } else { EventAction::Nothing },
        ),
        WindowEvent::KeyboardInput { code, pressed } => (
            ViewerState { input: s.input.with_key(code, pressed), ..s },
            if code == KeyCode::Escape { EventAction::Exit } else { EventAction::Nothing },
        ),
        WindowEvent::RedrawRequested => (s, EventAction::UpdateAndRender),
        WindowEvent::Other => (s, EventAction::Nothing),
    }
}

/// The decision for the frame, given the surface's status and its size.
pub open spec fn frame_decision_spec(surface: SurfaceSize, status: SurfaceStatus) -> FrameDecision {
    match status {
        SurfaceStatus::Success | SurfaceStatus::Suboptimal => FrameDecision::Draw,
        SurfaceStatus::Outdated | SurfaceStatus::Lost => if is_drawable(surface.width, surface.height) {
            FrameDecision::Reconfigure
        } else {
            FrameDecision::Skip
        },
        _ => FrameDecision::Skip,
    }
}

impl ViewerState {
    /// The state of a fresh viewer whose surface has the given size.
    pub fn new(width: u32, height: u32) -> (s: Self)
        ensures
            s.surface == (SurfaceSize { width, height }),
            s.input == InputState::released(),
    {
        ViewerState { surface: SurfaceSize { width, height }, input: InputState::new() }
    }

    /// Takes a new surface size when both sides are nonzero; returns whether
    /// the surface has to be configured again.
    pub fn resize(&mut self, width: u32, height: u32) -> (reconfigure: bool)
        ensures
            reconfigure == is_drawable(width, height),
            final(self).surface == resized(old(self).surface, width, height),
            final(self).input == old(self).input,
            width > 0 && height > 0 ==> reconfigure && final(self).surface.width == width
                && final(self).surface.height == height,
            !(width > 0 && height > 0) ==> !reconfigure && final(self).surface == old(self).surface,
    {
        if width > 0 && height > 0 {
            self.surface = SurfaceSize { width, height };
            true
        } else {
            false
        }
    }

    /// Applies one window event and says what the program must do next.
    pub fn handle_event(&mut self, event: WindowEvent) -> (action: EventAction)
        ensures
            (*final(self), action) == step_spec(*old(self), event),
    {
        match event {
            WindowEvent::CloseRequested => EventAction::Exit,
            WindowEvent::Resized { width, height } => {
                if self.resize(width, height) {
                    EventAction::Reconfigure
                } else {
                    EventAction::Nothing
                }
            },
            WindowEvent::KeyboardInput { code, pressed } => {
                self.input.set_key(code, pressed);
                if code == KeyCode::Escape {
                    EventAction::Exit
                } else {
                    EventAction::Nothing
                }
            },
            WindowEvent::RedrawRequested => EventAction::UpdateAndRender,
            WindowEvent::Other => EventAction::Nothing,
        }
    }

    /// Decides what to do with the frame once the surface has answered.
    pub fn frame_decision(&self, status: SurfaceStatus) -> (d: FrameDecision)
        ensures
            d == frame_decision_spec(self.surface, status),
    {
        match status {
            SurfaceStatus::Success | SurfaceStatus::Suboptimal => FrameDecision::Draw,
            SurfaceStatus::Outdated | SurfaceStatus::Lost => {
                if self.surface.width > 0 && self.surface.height > 0 {
                    FrameDecision::Reconfigure
                } else {
                    FrameDecision::Skip
                }
            },
            _ => FrameDecision::Skip,
        }
    }
}

/// Once a viewer has a drawable surface, no event can make it undrawable.
pub proof fn law_surface_stays_drawable(s: ViewerState, event: WindowEvent)
    requires
        is_drawable(s.surface.width, s.surface.height),
    ensures
        is_drawable(step_spec(s, event).0.surface.width, step_spec(s, event).0.surface.height),
{
}

/// Keyboard events never touch the surface, and no other event touches the
/// held keys.
pub proof fn law_events_touch_their_own_part(s: ViewerState, event: WindowEvent)
    ensures
        event is KeyboardInput ==> step_spec(s, event).0.surface == s.surface,
        !(event is KeyboardInput) ==> step_spec(s, event).0.input == s.input,
{
}

/// Resizing is idempotent: a second identical resize leaves the state as
/// the first one left it.
pub proof fn law_resize_idempotent(s: ViewerState, width: u32, height: u32)
    ensures
        ({
            let e = WindowEvent::Resized { width, height };
            let once = step_spec(s, e).0;
            step_spec(once, e).0 == once
        }),
{
}

/// Once the surface has been configured with a drawable size, a lost or
/// outdated surface always leads to a reconfiguration, never to drawing.
pub proof fn law_lost_surface_reconfigures(surface: SurfaceSize, status: SurfaceStatus)
    requires
        is_drawable(surface.width, surface.height),
        status is Outdated || status is Lost,
    ensures
        frame_decision_spec(surface, status) == FrameDecision::Reconfigure,
{
}


/// A resize event to a size with both sides nonzero sets the surface to exactly
/// that size and asks for a reconfiguration; any other resize changes nothing
/// and asks for nothing. The held keys are untouched either way.
pub proof fn law_resize_event(s: ViewerState, width: u32, height: u32)
    ensures
        ({
            let (t, a) = step_spec(s, WindowEvent::Resized { width, height });
            &&& t.input == s.input
            &&& width > 0 && height > 0 ==> t.surface.width == width && t.surface.height == height
                && a == EventAction::Reconfigure
            &&& !(width > 0 && height > 0) ==> t.surface == s.surface && a == EventAction::Nothing
        }),
{
}

/// A key event records the key in the direction it is bound to (W forward,
/// S backward, A left, D right) and leaves the other directions and the
/// surface alone; it leaves the event loop exactly when the key is Escape.
pub proof fn law_keyboard_event(s: ViewerState, code: KeyCode, pressed: bool)
    ensures
        ({
            let (t, a) = step_spec(s, WindowEvent::KeyboardInput { code, pressed });
            &&& t.surface == s.surface
            &&& t.input.forward == (if code == KeyCode::KeyW { pressed } else { s.input.forward })
            &&& t.input.backward == (if code == KeyCode::KeyS { pressed } else { s.input.backward })
            &&& t.input.left == (if code == KeyCode::KeyA { pressed } else { s.input.left })
            &&& t.input.right == (if code == KeyCode::KeyD { pressed } else { s.input.right })
            &&& (a == EventAction::Exit <==> code == KeyCode::Escape)
            &&& a != EventAction::Exit ==> a == EventAction::Nothing
        }),
{
}

/// Closing exits, a redraw request updates and draws, any other event does
/// nothing; none of them changes the state.
pub proof fn law_other_events(s: ViewerState)
    ensures
        step_spec(s, WindowEvent::CloseRequested) == (s, EventAction::Exit),
        step_spec(s, WindowEvent::RedrawRequested) == (s, EventAction::UpdateAndRender),
        step_spec(s, WindowEvent::Other) == (s, EventAction::Nothing),
{
}

/// A frame is drawn exactly when a texture was acquired (success or
/// suboptimal); it is reconfigured exactly when the surface is lost or
/// outdated and has nonzero sides; otherwise it is skipped.
pub proof fn law_frame_decision(surface: SurfaceSize, status: SurfaceStatus)
    ensures
        (frame_decision_spec(surface, status) == FrameDecision::Draw) <==> (status
            == SurfaceStatus::Success || status == SurfaceStatus::Suboptimal),
        (frame_decision_spec(surface, status) == FrameDecision::Reconfigure) <==> ((status
            == SurfaceStatus::Outdated || status == SurfaceStatus::Lost) && surface.width > 0
            && surface.height > 0),
{
}

} // verus!
