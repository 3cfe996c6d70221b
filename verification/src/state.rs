//! The render state machine: surface configuration, input dispatch, the
//! per-frame draw plan, and classification of surface failures.
//!
//! The GPU device, surface, pipeline and buffers live with the caller; this
//! state decides what they are asked to do. Resizing accepts only
//! non-degenerate sizes and is idempotent; rendering a frame means one draw
//! call per mesh over every instance, each mesh bound to its resolved
//! material; a failed frame is classified as recoverable, fatal or
//! transient rather than propagated raw.

use vstd::prelude::*;
use crate::controller::{apply_key, CameraController, CameraKey, MovementPlan};
use crate::instances::{grid_instance, make_grid, Instance, INSTANCES_PER_ROW};
use crate::model::ModelDesc;

verus! {

/// The surface's current configuration: the pixel size rendering targets.
#[derive(Clone, Copy, Debug, PartialEq, Eq, Structural)]
pub struct SurfaceConfig {
    pub width: u32,
    pub height: u32,
}

/// What the surface reported when a frame could not be acquired.
#[derive(Clone, Copy, Debug, PartialEq, Eq, Structural)]
pub enum SurfaceIssue {
    /// The surface was lost and must be reconfigured.
    Lost,
    /// The surface no longer matches the window and will be reconfigured by
    /// an upcoming resize.
    Outdated,
    /// Allocation for the next frame failed.
    OutOfMemory,
    /// Acquiring the next frame took too long.
    Timeout,
}

/// The classified outcome of one rendered frame.
#[derive(Clone, Copy, Debug, PartialEq, Eq, Structural)]
pub enum RenderOutcome {
    /// The frame was drawn and presented.
    Completed,
    /// Recoverable: reissue the last known-good size through resize to
    /// restore the surface, then continue.
    Recoverable(SurfaceIssue),
    /// Fatal: the caller should terminate.
    Fatal(SurfaceIssue),
    /// Transient: drop this frame, surface a diagnostic, and try again on
    /// the next frame.
    Dropped(SurfaceIssue),
}

/// One indexed, instanced draw call of a frame.
#[derive(Clone, Copy, Debug, PartialEq, Eq, Structural)]
pub struct DrawCall {
    /// Which mesh's vertex and index buffers to bind.
    pub mesh_index: usize,
    /// Which material's bind group to bind; resolved, always in bounds.
    pub material_index: usize,
    /// First instance of the drawn range.
    pub instance_start: u32,
    /// One past the last instance of the drawn range.
    pub instance_end: u32,
}

/// The render core: everything the per-frame decisions read or mutate.
#[verifier::ext_equal]
pub struct State {
    pub config: SurfaceConfig,
    pub controller: CameraController,
    pub instances: Vec<Instance>,
    pub model: ModelDesc,
}

/// The state as it stands after a resize request: a new non-degenerate size
/// replaces the configuration; a request with a zero dimension leaves the
/// state untouched.
pub open spec fn resize_spec(s: State, width: u32, height: u32) -> State {
    if width > 0 && height > 0 {
        State { config: SurfaceConfig { width, height }, ..s }
    } else {
        s
    }
}

/// How a frame's acquisition result is classified: a lost surface is
/// recoverable by resizing, running out of memory is fatal, and any other
/// failure only drops the frame.
pub open spec fn classify_spec(acquired: Option<SurfaceIssue>) -> RenderOutcome {
    match acquired {
        None => RenderOutcome::Completed,
        Some(SurfaceIssue::Lost) => RenderOutcome::Recoverable(SurfaceIssue::Lost),
        Some(SurfaceIssue::OutOfMemory) => RenderOutcome::Fatal(SurfaceIssue::OutOfMemory),
        Some(issue) => RenderOutcome::Dropped(issue),
    }
}

impl State {
    /// A usable render core: a non-degenerate surface, a well-formed model,
    /// and an instance count a draw range can hold.
    pub open spec fn wf(self) -> bool {
        &&& self.config.width > 0
        &&& self.config.height > 0
        &&& self.model.wf()
        &&& self.instances@.len() <= u32::MAX
    }

    /// Build the render core at the window's initial pixel size: a fresh
    /// controller, the default instance grid, and the loaded model.
    pub fn new(width: u32, height: u32, speed_milli: u32, model: ModelDesc) -> (s: State)
        requires
            width > 0,
            height > 0,
            model.wf(),
        ensures
            s.wf(),
            s.config == (SurfaceConfig { width, height }),
            s.controller == CameraController::new_spec(speed_milli),
            s.instances@.len() == INSTANCES_PER_ROW * INSTANCES_PER_ROW,
            forall|i: int|
                0 <= i < s.instances@.len() ==> s.instances@[i] == grid_instance(
                    INSTANCES_PER_ROW as int,
                    i / (INSTANCES_PER_ROW as int),
                    i % (INSTANCES_PER_ROW as int),
                ),
            s.model == model,
    {
        State {
            config: SurfaceConfig { width, height },
            controller: CameraController::new(speed_milli),
            instances: make_grid(INSTANCES_PER_ROW),
            model,
        }
    }

    /// Apply a resize request. A non-degenerate size replaces the surface
    /// configuration and is accepted: the caller must then reconfigure the
    /// surface and recreate the depth texture at the new size. A degenerate
    /// size (a zero dimension, as during a window minimize) is rejected and
    /// leaves the state untouched.
    pub fn resize(&mut self, width: u32, height: u32) -> (accepted: bool)
        ensures
            *final(self) == resize_spec(*old(self), width, height),
            accepted == (width > 0 && height > 0),
            accepted ==> final(self).config == (SurfaceConfig { width, height }),
            !accepted ==> *final(self) == *old(self),
            old(self).wf() ==> final(self).wf(),
    {
        if width > 0 && height > 0 {
            self.config = SurfaceConfig { width, height };
            true
        } else {
            false
        }
    }

    /// Route an input event: a movement key press or release goes to the
    /// camera controller and is consumed; anything else is left to the
    /// caller's own handling.
    pub fn input(&mut self, key: Option<CameraKey>, pressed: bool) -> (consumed: bool)
        ensures
            match key {
                Some(k) => consumed && *final(self) == (State {
                    controller: apply_key(old(self).controller, k, pressed),
                    ..*old(self)
                }),
                None => !consumed && *final(self) == *old(self),
            },
            old(self).wf() ==> final(self).wf(),
    {
        match key {
            Some(k) => self.controller.process_key(k, pressed),
            None => false,
        }
    }

    /// Decide this frame's camera motion from the controller's held keys;
    /// `target_clear` reports whether the eye's distance to the target
    /// exceeds the movement step.
    pub fn update_plan(&self, target_clear: bool) -> (p: MovementPlan)
        ensures
            p == crate::controller::plan_spec(self.controller, target_clear),
    {
        self.controller.movement_plan(target_clear)
    }

    /// Plan this frame's draw calls: one indexed, instanced draw per mesh,
    /// in mesh order, each bound to its resolved material and covering
    /// every instance.
    pub fn draw_plan(&self) -> (calls: Vec<DrawCall>)
        requires
            self.wf(),
        ensures
            calls@.len() == self.model.meshes@.len(),
            forall|i: int|
                0 <= i < calls@.len() ==> (#[trigger] calls@[i]) == (DrawCall {
                    mesh_index: i as usize,
                    material_index: self.model.meshes@[i].material,
                    instance_start: 0,
                    instance_end: self.instances@.len() as u32,
                }),
            forall|i: int|
                0 <= i < calls@.len() ==> (#[trigger] calls@[i]).material_index
                    < self.model.materials@.len(),
    {
        let instance_end: u32 = self.instances.len() as u32;
        let mut calls: Vec<DrawCall> = Vec::new();
        let n_meshes = self.model.meshes.len();
        let mut mesh_index: usize = 0;
        while mesh_index < n_meshes
            invariant
                self.wf(),
                n_meshes == self.model.meshes@.len(),
                mesh_index <= n_meshes,
                instance_end == self.instances@.len(),
                calls@.len() == mesh_index,
                forall|i: int|
                    0 <= i < calls@.len() ==> (#[trigger] calls@[i]) == (DrawCall {
                        mesh_index: i as usize,
                        material_index: self.model.meshes@[i].material,
                        instance_start: 0,
                        instance_end: self.instances@.len() as u32,
                    }),
            decreases n_meshes - mesh_index,
        {
            let material_index = self.model.resolved_material(mesh_index);
            calls.push(
                DrawCall { mesh_index, material_index, instance_start: 0, instance_end },
            );
            mesh_index = mesh_index + 1;
        }
        calls
    }
}

/// Classify what one frame's surface acquisition came to: `None` means the
/// frame was acquired, drawn and presented.
pub fn classify_frame(acquired: Option<SurfaceIssue>) -> (o: RenderOutcome)
    ensures
        o == classify_spec(acquired),
{
    match acquired {
        None => RenderOutcome::Completed,
        Some(SurfaceIssue::Lost) => RenderOutcome::Recoverable(SurfaceIssue::Lost),
        Some(SurfaceIssue::OutOfMemory) => RenderOutcome::Fatal(SurfaceIssue::OutOfMemory),
        Some(issue) => RenderOutcome::Dropped(issue),
    }
}

/// Resize is idempotent and rejects degenerate sizes: a second request with
/// the same size changes nothing further, and a request with a zero
/// dimension leaves the state exactly as it was.
pub proof fn lemma_resize_idempotent(s: State, width: u32, height: u32)
    ensures
        resize_spec(resize_spec(s, width, height), width, height) == resize_spec(
            s,
            width,
            height,
        ),
        width == 0 || height == 0 ==> resize_spec(s, width, height) == s,
{
    assert(resize_spec(resize_spec(s, width, height), width, height) =~= resize_spec(
        s,
        width,
        height,
    ));
}

} // verus!
