//! The scene-state controller.
//!
//! One state record owns the scene, the camera and the viewport aspect
//! ratio.  The host's event loop hands [`handle_event`] one event at a time;
//! the contract states, case by case, how the state changes and which action
//! the host owes in return (resize its render target, draw a frame, exit, or
//! nothing).  [`prepare_frame`] then derives everything one frame needs —
//! the transform and a snapshot of the vertex data — from the current state
//! alone, so frames are reproducible until the state changes.

use crate::camera::CAM_AXIS_OFFSET_FP;
use crate::camera::CAM_RAW_LIMIT;
use crate::camera::CameraState;
use crate::camera::angle_fx_spec;
use crate::camera::lemma_angle_fx_monotone;
use crate::camera::move_camera;
use crate::fixed::FX_ONE;
use crate::fixed::mag;
use crate::matrix::Mat4;
use crate::matrix::build_transform;
use crate::matrix::mat_view;
use crate::matrix::transform_spec;
use crate::scene::CIRCLE_POINT_COUNT;
use crate::scene::REGEN_POINT_COUNT;
use crate::scene::Vertex;
use crate::scene::circle_vertex_ok;
use crate::scene::initial_scene;
use crate::scene::regen_vertex_ok;
use crate::scene::regenerate_scene;
use vstd::arithmetic::div_mod::lemma_div_nonincreasing;
use vstd::prelude::*;

verus! {

/// A mouse button, as far as the demo cares: only the secondary button does
/// anything.
#[derive(Clone, Copy, PartialEq, Eq, Structural, Debug)]
pub enum PointerButton {
    Primary,
    Secondary,
    Other,
}

/// One event delivered by the host's window system.
#[derive(Clone, Copy, PartialEq, Eq, Structural, Debug)]
pub enum SceneEvent {
    /// The window was resized to the given pixel size.
    Resized { width: u32, height: u32 },
    /// A mouse button was pressed.
    MouseButtonDown { button: PointerButton },
    /// The cursor moved to the given position, in whole pixels.
    CursorMoved { cursor_x: i64, cursor_y: i64 },
    /// The window system asks for the frame to be drawn again.
    RedrawRequested,
    /// The window was asked to close.
    CloseRequested,
    /// Any other window or keyboard event; all are ignored.
    Other,
}

/// What the host owes after an event.
#[derive(Clone, Copy, PartialEq, Eq, Structural, Debug)]
pub enum FrameAction {
    /// Nothing to do.
    Nothing,
    /// Resize the render target to the window's new size.
    Reconfigure,
    /// Draw a frame from the current state.
    Redraw,
    /// Leave the event loop.
    Exit,
}

/// The controller's one persistent state record.
pub struct AppState {
    /// The scene, in draw order.
    pub scene: Vec<Vertex>,
    /// The orbit camera.
    pub camera: CameraState,
    /// Viewport aspect ratio (width over height), fixed-point, always
    /// positive.
    pub aspect_fx: i64,
}

impl AppState {
    /// The aspect ratio is positive and the camera is within its limit.
    pub open spec fn wf(self) -> bool {
        &&& self.aspect_fx > 0
        &&& self.camera.wf()
    }

    /// The initial state: the circular scene, the camera at angle zero with
    /// its fixed axis offset, and a square aspect ratio until the first
    /// resize.
    pub fn new() -> (s: AppState)
        ensures
            s.wf(),
            s.aspect_fx == FX_ONE,
            s.camera.angle_raw == 0,
            s.camera.axis_offset == CAM_AXIS_OFFSET_FP,
            s.scene@.len() == CIRCLE_POINT_COUNT,
            forall|i: int| 0 <= i < s.scene@.len() ==> circle_vertex_ok(#[trigger] s.scene@[i], i),
    {
        AppState { scene: initial_scene(), camera: CameraState::start(), aspect_fx: FX_ONE }
    }
}

/// The aspect ratio after a resize: width over height in fixed point,
/// clamped to stay positive; a degenerate size keeps the old ratio.
pub open spec fn next_aspect_spec(old_aspect: i64, width: u32, height: u32) -> i64 {
    if width == 0 || height == 0 {
        old_aspect
    } else {
        let q = ((width as int) * (FX_ONE as int)) / (height as int);
        if q < 1 {
            1i64
        } else {
            q as i64
        }
    }
}

/// How a deterministic event (every event except a secondary-button press,
/// whose regenerated scene is random) transforms the state.
pub open spec fn step_spec(s: AppState, e: SceneEvent) -> AppState {
    match e {
        SceneEvent::Resized { width, height } => AppState {
            aspect_fx: next_aspect_spec(s.aspect_fx, width, height),
            ..s
        },
        SceneEvent::CursorMoved { cursor_x, .. } => AppState {
            camera: CameraState {
                angle_raw: (s.camera.angle_raw + cursor_x) as i64,
                axis_offset: s.camera.axis_offset,
            },
            ..s
        },
        _ => s,
    }
}

/// Which action the host owes for each event.
pub open spec fn action_spec(e: SceneEvent) -> FrameAction {
    match e {
        SceneEvent::Resized { .. } => FrameAction::Reconfigure,
        SceneEvent::MouseButtonDown { button } => if button == PointerButton::Secondary {
            FrameAction::Redraw
        } else {
            FrameAction::Nothing
        },
        SceneEvent::CursorMoved { .. } => FrameAction::Redraw,
        SceneEvent::RedrawRequested => FrameAction::Redraw,
        SceneEvent::CloseRequested => FrameAction::Exit,
        SceneEvent::Other => FrameAction::Nothing,
    }
}

/// Feed one event to the controller.  A resize updates the aspect ratio, a
/// secondary-button press regenerates the scene, a cursor move turns the
/// camera; everything else leaves the state alone.  The returned action says
/// what the host must do next.
pub fn handle_event(state: &mut AppState, event: &SceneEvent) -> (action: FrameAction)
    requires
        old(state).wf(),
        *event matches SceneEvent::CursorMoved { cursor_x, .. } ==> mag(
            old(state).camera.angle_raw + cursor_x,
        ) <= CAM_RAW_LIMIT,
    ensures
        final(state).wf(),
        action == action_spec(*event),
        !(*event matches SceneEvent::MouseButtonDown { button: PointerButton::Secondary })
            ==> *final(state) == step_spec(*old(state), *event),
        *event matches SceneEvent::MouseButtonDown { button: PointerButton::Secondary } ==> {
            &&& final(state).camera == old(state).camera
            &&& final(state).aspect_fx == old(state).aspect_fx
            &&& final(state).scene@.len() == REGEN_POINT_COUNT
            &&& forall|i: int|
                0 <= i < final(state).scene@.len() ==> regen_vertex_ok(
                    #[trigger] final(state).scene@[i],
                )
        },
{
    match event {
        SceneEvent::Resized { width, height } => {
            let w = *width;
            let h = *height;
            if w != 0 && h != 0 {
                proof {
                    lemma_div_nonincreasing((w as int) * (FX_ONE as int), h as int);
                }
                let q: u64 = ((w as u64) * (FX_ONE as u64)) / (h as u64);
                let q_fx: i64 = q as i64;
                state.aspect_fx = if q_fx < 1 {
                    1
                } else {
                    q_fx
                };
            }
            FrameAction::Reconfigure
        },
        SceneEvent::MouseButtonDown { button } => {
            if *button == PointerButton::Secondary {
                regenerate_scene(&mut state.scene);
                FrameAction::Redraw
            } else {
                FrameAction::Nothing
            }
        },
        SceneEvent::CursorMoved { cursor_x, cursor_y } => {
            state.camera = move_camera(&state.camera, *cursor_x, *cursor_y);
            FrameAction::Redraw
        },
        SceneEvent::RedrawRequested => FrameAction::Redraw,
        SceneEvent::CloseRequested => FrameAction::Exit,
        SceneEvent::Other => FrameAction::Nothing,
    }
}

/// Everything one frame submission needs: the transform and a snapshot of
/// the vertex data, both pure functions of the state.
pub struct FrameData {
    /// The projection-view transform for the frame.
    pub transform: Mat4,
    /// The vertex data for the frame, in draw order.
    pub vertices: Vec<Vertex>,
    /// How many vertices to draw.
    pub vertex_count: usize,
}

/// Copy the scene for one frame submission, so a later regeneration can
/// never touch data a frame in flight still reads.
fn copy_vertices(src: &Vec<Vertex>) -> (out: Vec<Vertex>)
    ensures
        out@ == src@,
{
    let mut out: Vec<Vertex> = Vec::new();
    let mut i: usize = 0;
    while i < src.len()
        invariant
            i <= src@.len(),
            out@ =~= src@.subrange(0, i as int),
        decreases src@.len() - i,
    {
        out.push(src[i]);
        proof {
            assert(src@.subrange(0, (i + 1) as int) =~= src@.subrange(0, i as int).push(
                src@[i as int],
            ));
        }
        i = i + 1;
    }
    proof {
        assert(out@ =~= src@);
    }
    out
}

/// Derive one frame from the current state: the transform per
/// `transform_spec` and a snapshot of the scene.  The state invariant keeps
/// the aspect ratio positive, so building the transform cannot fail.
pub fn prepare_frame(state: &AppState) -> (frame: FrameData)
    requires
        state.wf(),
    ensures
        mat_view(frame.transform) == transform_spec(
            state.aspect_fx as int,
            state.camera.angle_raw as int,
        ),
        frame.vertices@ == state.scene@,
        frame.vertex_count == state.scene@.len(),
{
    let transform = match build_transform(state.aspect_fx, &state.camera) {
        Ok(m) => m,
        Err(_) => vstd::pervasive::unreached(),
    };
    let vertices = copy_vertices(&state.scene);
    let vertex_count = vertices.len();
    FrameData { transform, vertices, vertex_count }
}

/// Law: a redraw request changes nothing, so two consecutive redraw
/// requests with no event in between derive their frames from the same
/// state — the same transform and the same vertex data.
pub proof fn lemma_redraw_idempotent(s: AppState)
    ensures
        step_spec(s, SceneEvent::RedrawRequested) == s,
        ({
            let s1 = step_spec(s, SceneEvent::RedrawRequested);
            let s2 = step_spec(s1, SceneEvent::RedrawRequested);
            &&& s2 == s
            &&& transform_spec(s1.aspect_fx as int, s1.camera.angle_raw as int)
                == transform_spec(s2.aspect_fx as int, s2.camera.angle_raw as int)
            &&& s1.scene@ == s2.scene@
        }),
{
}

/// Law: a cursor move adds exactly its x coordinate to the camera's
/// accumulated sum — the orbit angle changes by exactly `x / CAM_SCALE`
/// radians — touches nothing else, and the resulting angle is monotone in
/// the cursor's x coordinate: no clamping, no wraparound.
pub proof fn lemma_cursor_move_exact(s: AppState, x1: i64, x2: i64, y1: i64, y2: i64)
    requires
        mag(s.camera.angle_raw + x1) <= CAM_RAW_LIMIT,
        mag(s.camera.angle_raw + x2) <= CAM_RAW_LIMIT,
    ensures
        ({
            let s1 = step_spec(s, SceneEvent::CursorMoved { cursor_x: x1, cursor_y: y1 });
            let s2 = step_spec(s, SceneEvent::CursorMoved { cursor_x: x2, cursor_y: y2 });
            &&& s1.camera.angle_raw == s.camera.angle_raw + x1
            &&& s1.camera.axis_offset == s.camera.axis_offset
            &&& s1.aspect_fx == s.aspect_fx
            &&& s1.scene@ == s.scene@
            &&& x1 <= x2 ==> angle_fx_spec(s1.camera.angle_raw as int) <= angle_fx_spec(
                s2.camera.angle_raw as int,
            )
        }),
{
    if x1 <= x2 {
        lemma_angle_fx_monotone(s.camera.angle_raw + x1, s.camera.angle_raw + x2);
    }
}

} // verus!

