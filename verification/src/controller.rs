//! The motion controller: keys held down become intents, and each tick the
//! intents move the camera's eye.
//!
//! Forward and backward move the eye along the line of sight. Left and right
//! swing it around the target at the distance it has, so the target stays in
//! view: an orbit, not a sideways slide.

use vstd::prelude::*;
use crate::camera::Camera;
use crate::input::{intent_of, Direction, InputEvent, Key, KeyState};
use crate::linalg::{
    vec3_cross, vec3_difference, vec3_length, vec3_normalized, vec3_scaled, vec3_sum, Vec3,
};
use crate::scalar::{greater, gt};

verus! {

/// Turns key events into camera motion.
#[derive(Clone, Copy, Debug)]
pub struct CameraControler {
    speed: u32,
    forward_pressed: bool,
    backward_pressed: bool,
    right_pressed: bool,
    left_pressed: bool,
}

/// What a controller holds: the step per tick and, for each direction,
/// whether its key is down right now.
pub struct Intents {
    pub speed: u32,
    pub forward: bool,
    pub backward: bool,
    pub left: bool,
    pub right: bool,
}

impl View for CameraControler {
    type V = Intents;

    closed spec fn view(&self) -> Intents {
        Intents {
            speed: self.speed,
            forward: self.forward_pressed,
            backward: self.backward_pressed,
            left: self.left_pressed,
            right: self.right_pressed,
        }
    }
}

impl Intents {
    /// Whether the key of `direction` is held.
    pub open spec fn holds(self, direction: Direction) -> bool {
        match direction {
            Direction::Forward => self.forward,
            Direction::Backward => self.backward,
            Direction::Left => self.left,
            Direction::Right => self.right,
        }
    }

    /// The same intents with that of `direction` set to `held`.
    pub open spec fn with(self, direction: Direction, held: bool) -> Intents {
        match direction {
            Direction::Forward => Intents { forward: held, ..self },
            Direction::Backward => Intents { backward: held, ..self },
            Direction::Left => Intents { left: held, ..self },
            Direction::Right => Intents { right: held, ..self },
        }
    }

    /// The intents once `event` has been taken in: a change of a bound key
    /// switches its direction, any other event changes nothing.
    pub open spec fn after(self, event: InputEvent) -> Intents {
        match intent_of(event) {
            Some((direction, held)) => self.with(direction, held),
            None => self,
        }
    }

    /// The step along the line of sight from `eye` to `target`.
    pub open spec fn stride(self, eye: Vec3, target: Vec3) -> Vec3 {
        vec3_scaled(vec3_normalized(vec3_difference(target, eye)), self.speed)
    }

    /// The eye after the move along the line of sight. Forward advances by
    /// one stride, but only while the target is farther away than `speed`,
    /// so the eye never passes it. Backward then retreats by the same
    /// stride, with no such guard.
    pub open spec fn after_dolly(self, eye: Vec3, target: Vec3) -> Vec3 {
        let distance = vec3_length(vec3_difference(target, eye));
        let advanced = if self.forward && greater(distance, self.speed) {
            vec3_sum(eye, self.stride(eye, target))
        } else {
            eye
        };
        if self.backward {
            vec3_difference(advanced, self.stride(eye, target))
        } else {
            advanced
        }
    }

    /// The offset between target and eye after a swing: the line of sight
    /// pushed sideways by `right * speed`, brought back to the length it had.
    pub open spec fn arm(self, eye: Vec3, target: Vec3, right: Vec3) -> Vec3 {
        let forward = vec3_difference(target, eye);
        vec3_scaled(
            vec3_normalized(vec3_sum(forward, vec3_scaled(right, self.speed))),
            vec3_length(forward),
        )
    }

    /// The eye after the swing around the target. Right puts it at
    /// `target - arm`, left at `target + arm`; left wins where both are held.
    pub open spec fn after_strafe(self, eye: Vec3, target: Vec3, right: Vec3) -> Vec3 {
        if self.left {
            vec3_sum(target, self.arm(eye, target, right))
        } else if self.right {
            vec3_difference(target, self.arm(eye, target, right))
        } else {
            eye
        }
    }

    /// The camera's eye after one tick: first the move along the line of
    /// sight, then the swing, whose sideways direction is taken from the line
    /// of sight as it was before the move.
    pub open spec fn eye_after_tick(self, camera: Camera) -> Vec3 {
        let right = vec3_cross(
            vec3_normalized(vec3_difference(camera.target, camera.eye)),
            camera.up,
        );
        self.after_strafe(self.after_dolly(camera.eye, camera.target), camera.target, right)
    }
}

impl CameraControler {
    /// A controller that moves `speed` world units per tick, no key held.
    pub fn new(speed: u32) -> (r: CameraControler)
        ensures
            r@ == (Intents { speed, forward: false, backward: false, left: false, right: false }),
    {
        CameraControler {
            speed,
            forward_pressed: false,
            backward_pressed: false,
            right_pressed: false,
            left_pressed: false,
        }
    }

    /// The step per tick.
    pub fn speed(&self) -> (r: u32)
        ensures
            r == self@.speed,
    {
        self.speed
    }

    /// Whether the key of `direction` is held right now.
    pub fn is_pressed(&self, direction: Direction) -> (r: bool)
        ensures
            r == self@.holds(direction),
    {
        match direction {
            Direction::Forward => self.forward_pressed,
            Direction::Backward => self.backward_pressed,
            Direction::Left => self.left_pressed,
            Direction::Right => self.right_pressed,
        }
    }

    /// Takes in one event and tells whether it was meant for the controller.
    /// A press of a bound key sets its intent, a release clears it; every
    /// other event is left to others and changes nothing.
    pub fn process_keypress(&mut self, event: &InputEvent) -> (consumed: bool)
        ensures
            final(self)@ == old(self)@.after(*event),
            consumed == intent_of(*event).is_some(),
    {
        match event.intent() {
            Some((direction, held)) => {
                match direction {
                    Direction::Forward => {
                        self.forward_pressed = held;
                    },
                    Direction::Backward => {
                        self.backward_pressed = held;
                    },
                    Direction::Left => {
                        self.left_pressed = held;
                    },
                    Direction::Right => {
                        self.right_pressed = held;
                    },
                }
                true
            },
            None => false,
        }
    }

    /// Moves the camera's eye by one tick of the held intents. Nothing but
    /// the eye changes.
    pub fn update(&self, camera: &mut Camera)
        ensures
            final(camera).eye == self@.eye_after_tick(*old(camera)),
            final(camera).target == old(camera).target,
            final(camera).up == old(camera).up,
            final(camera).aspect == old(camera).aspect,
            final(camera).fovy == old(camera).fovy,
            final(camera).znear == old(camera).znear,
            final(camera).zfar == old(camera).zfar,
            final(camera).clip_correction == old(camera).clip_correction,
            old(camera).lens_is_valid() ==> final(camera).lens_is_valid(),
    {
        let forward = camera.target.minus(camera.eye);
        let forward_norm = forward.normalized();
        let forward_mag = forward.length();

        if self.forward_pressed && gt(forward_mag, self.speed) {
            camera.eye = camera.eye.plus(forward_norm.scaled(self.speed));
        }
        if self.backward_pressed {
            camera.eye = camera.eye.minus(forward_norm.scaled(self.speed));
        }
        let right = forward_norm.cross(camera.up);

        let forward = camera.target.minus(camera.eye);
        let forward_mag = forward.length();

        if self.right_pressed {
            let swung = forward.plus(right.scaled(self.speed)).normalized();
            camera.eye = camera.target.minus(swung.scaled(forward_mag));
        }
        if self.left_pressed {
            let swung = forward.plus(right.scaled(self.speed)).normalized();
            camera.eye = camera.target.plus(swung.scaled(forward_mag));
        }
    }
}

/// The forward guard: with only the forward key in play along the line of
/// sight, the eye advances exactly when the target is farther away than
/// `speed`, and otherwise stays where it is.
pub proof fn lemma_forward_guard(intents: Intents, eye: Vec3, target: Vec3)
    requires
        intents.forward,
        !intents.backward,
    ensures
        greater(vec3_length(vec3_difference(target, eye)), intents.speed) ==> intents.after_dolly(
            eye,
            target,
        ) == vec3_sum(eye, intents.stride(eye, target)),
        !greater(vec3_length(vec3_difference(target, eye)), intents.speed) ==> intents.after_dolly(
            eye,
            target,
        ) == eye,
{
}

/// A press followed by a release of the same bound key leaves that intent
/// cleared and every other intent as it was before the press.
pub proof fn lemma_release_clears_intent(intents: Intents, key: Key, direction: Direction)
    requires
        crate::input::bound_direction(key) == Some(direction),
    ensures
        ({
            let pressed = intents.after(InputEvent::Keyboard { key, state: KeyState::Pressed });
            let released = pressed.after(InputEvent::Keyboard { key, state: KeyState::Released });
            &&& pressed.holds(direction)
            &&& !released.holds(direction)
            &&& released == intents.with(direction, false)
        }),
{
}

/// An axis whose two intents are both cleared contributes no motion: with
/// forward and backward off the move along the line of sight keeps the eye,
/// with left and right off the swing keeps it, and with all four off a tick
/// leaves the eye where it was.
pub proof fn lemma_cleared_axis_is_still(intents: Intents, camera: Camera, right: Vec3)
    ensures
        !intents.forward && !intents.backward ==> intents.after_dolly(camera.eye, camera.target)
            == camera.eye,
        !intents.left && !intents.right ==> intents.after_strafe(camera.eye, camera.target, right)
            == camera.eye,
        !intents.forward && !intents.backward && !intents.left && !intents.right
            ==> intents.eye_after_tick(camera) == camera.eye,
{
}

/// From rest, pressing and releasing any one key and then ticking leaves
/// the eye where it was.
pub proof fn lemma_tap_then_tick_is_still(speed: u32, key: Key, camera: Camera)
    ensures
        ({
            let rest = Intents { speed, forward: false, backward: false, left: false, right: false };
            let pressed = rest.after(InputEvent::Keyboard { key, state: KeyState::Pressed });
            let released = pressed.after(InputEvent::Keyboard { key, state: KeyState::Released });
            released.eye_after_tick(camera) == camera.eye
        }),
{
}

} // verus!
