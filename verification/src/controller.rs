//! Held-key camera controller.
//!
//! Keyboard press/release events set or clear one directional flag each;
//! once per frame the flags are turned into a movement plan. The numeric
//! camera motion itself is vector arithmetic performed by the caller; the
//! controller decides *which* motions happen, and guards backward motion so
//! the eye never crosses through the target.

use vstd::prelude::*;

verus! {

/// A directional movement key recognised by the camera controller.
#[derive(Clone, Copy, Debug, PartialEq, Eq, Structural)]
pub enum CameraKey {
    Forward,
    Backward,
    Left,
    Right,
}

/// Held-key state of the camera controller.
///
/// `speed_milli` is the movement step per frame in thousandths of a world
/// unit; each flag mirrors whether the corresponding key is currently held.
#[derive(Clone, Copy, Debug, PartialEq, Eq, Structural)]
pub struct CameraController {
    pub speed_milli: u32,
    pub forward_pressed: bool,
    pub backward_pressed: bool,
    pub left_pressed: bool,
    pub right_pressed: bool,
}

/// The motions one frame's update applies to the camera eye.
///
/// `move_backward` is only planned when the caller reports that the current
/// distance to the target exceeds the movement step, so the eye never
/// advances past the target.
#[derive(Clone, Copy, Debug, PartialEq, Eq, Structural)]
pub struct MovementPlan {
    pub move_forward: bool,
    pub move_backward: bool,
    pub strafe_left: bool,
    pub strafe_right: bool,
    pub speed_milli: u32,
}

/// The controller as it stands after one press or release of `key`.
pub open spec fn apply_key(c: CameraController, key: CameraKey, pressed: bool) -> CameraController {
    match key {
        CameraKey::Forward => CameraController { forward_pressed: pressed, ..c },
        CameraKey::Backward => CameraController { backward_pressed: pressed, ..c },
        CameraKey::Left => CameraController { left_pressed: pressed, ..c },
        CameraKey::Right => CameraController { right_pressed: pressed, ..c },
    }
}

/// The movement plan the controller produces when the caller reports
/// `target_clear`: whether the distance from eye to target exceeds the
/// movement step.
pub open spec fn plan_spec(c: CameraController, target_clear: bool) -> MovementPlan {
    MovementPlan {
        move_forward: c.forward_pressed,
        move_backward: c.backward_pressed && target_clear,
        strafe_left: c.left_pressed,
        strafe_right: c.right_pressed,
        speed_milli: c.speed_milli,
    }
}

impl CameraController {
    /// A fresh controller with no key held.
    pub open spec fn new_spec(speed_milli: u32) -> CameraController {
        CameraController {
            speed_milli,
            forward_pressed: false,
            backward_pressed: false,
            left_pressed: false,
            right_pressed: false,
        }
    }

    pub fn new(speed_milli: u32) -> (c: CameraController)
        ensures
            c == CameraController::new_spec(speed_milli),
    {
        CameraController {
            speed_milli,
            forward_pressed: false,
            backward_pressed: false,
            left_pressed: false,
            right_pressed: false,
        }
    }

    /// Record a press (`pressed == true`) or release of a movement key.
    /// Movement keys are always consumed.
    pub fn process_key(&mut self, key: CameraKey, pressed: bool) -> (consumed: bool)
        ensures
            *final(self) == apply_key(*old(self), key, pressed),
            consumed,
    {
        match key {
            CameraKey::Forward => self.forward_pressed = pressed,
            CameraKey::Backward => self.backward_pressed = pressed,
            CameraKey::Left => self.left_pressed = pressed,
            CameraKey::Right => self.right_pressed = pressed,
        }
        true
    }

    /// Decide the motions of this frame's camera update.
    ///
    /// `target_clear` reports whether the eye's current distance to the
    /// target exceeds the movement step; the caller measures it, and the
    /// plan moves backward only when it holds.
    pub fn movement_plan(&self, target_clear: bool) -> (p: MovementPlan)
        ensures
            p == plan_spec(*self, target_clear),
    {
        MovementPlan {
            move_forward: self.forward_pressed,
            move_backward: self.backward_pressed && target_clear,
            strafe_left: self.left_pressed,
            strafe_right: self.right_pressed,
            speed_milli: self.speed_milli,
        }
    }
}

/// Movement is flag-driven and reversible: pressing a key and then releasing
/// it leaves the controller exactly as a single release would, so the motion
/// that key drives stops on every later update.
pub proof fn lemma_press_then_release(c: CameraController, key: CameraKey, target_clear: bool)
    ensures
        apply_key(apply_key(c, key, true), key, false) == apply_key(c, key, false),
        key == CameraKey::Forward ==> !plan_spec(
            apply_key(apply_key(c, key, true), key, false),
            target_clear,
        ).move_forward,
        key == CameraKey::Backward ==> !plan_spec(
            apply_key(apply_key(c, key, true), key, false),
            target_clear,
        ).move_backward,
        key == CameraKey::Left ==> !plan_spec(
            apply_key(apply_key(c, key, true), key, false),
            target_clear,
        ).strafe_left,
        key == CameraKey::Right ==> !plan_spec(
            apply_key(apply_key(c, key, true), key, false),
            target_clear,
        ).strafe_right,
{
}

/// Backward motion is guarded: whenever the eye is not clear of the target
/// (its distance does not exceed the movement step), no plan moves backward,
/// whatever keys are held.
pub proof fn lemma_backward_never_crosses_target(c: CameraController)
    ensures
        !plan_spec(c, false).move_backward,
{
}

} // verus!
