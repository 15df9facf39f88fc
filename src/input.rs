use vstd::prelude::*;
use crate::camera::{MouseButton, PanOrbitCamera};
use crate::fixed::Vector2;

verus! {

/// The unit a scroll event is measured in.
#[derive(Clone, Copy, Debug, PartialEq, Eq, Structural)]
pub enum ScrollUnit {
    /// Lines, as from a notched mouse wheel.
    Line,
    /// Pixels, as from a touchpad; already smooth.
    Pixel,
}

/// One scroll event.
#[derive(Clone, Copy, Debug, PartialEq, Eq, Structural)]
pub struct ScrollEvent {
    pub unit: ScrollUnit,
    pub x: i64,
    pub y: i64,
}

/// Everything the controller reads of one frame's input.
pub struct FrameInput {
    /// Buttons held down.
    pub pressed_buttons: Vec<MouseButton>,
    /// Buttons pressed this frame.
    pub just_pressed_buttons: Vec<MouseButton>,
    /// Buttons released this frame.
    pub just_released_buttons: Vec<MouseButton>,
    /// Key codes held down.
    pub pressed_keys: Vec<u32>,
    /// The sum of this frame's pointer motion.
    pub mouse_delta: Vector2,
    /// This frame's scroll events, in order.
    pub scroll_events: Vec<ScrollEvent>,
    /// This frame's touchpad magnify amounts, in order.
    pub magnify_events: Vec<i64>,
    /// This frame's touchpad rotate angles, in order.
    pub rotate_events: Vec<i64>,
    /// Whether a user interface claims the pointer.
    pub pointer_over_ui: bool,
}

/// Whether `b` is in `buttons`.
pub fn contains_button(buttons: &Vec<MouseButton>, b: MouseButton) -> (r: bool)
    ensures
        r == buttons@.contains(b),
{
    let mut i: usize = 0;
    while i < buttons.len()
        invariant
            i <= buttons.len(),
            forall|j: int| 0 <= j < i ==> buttons@[j] != b,
        decreases buttons.len() - i,
    {
        if buttons[i] == b {
            return true;
        }
        i = i + 1;
    }
    false
}

/// Whether `k` is in `keys`.
pub fn contains_key(keys: &Vec<u32>, k: u32) -> (r: bool)
    ensures
        r == keys@.contains(k),
{
    let mut i: usize = 0;
    while i < keys.len()
        invariant
            i <= keys.len(),
            forall|j: int| 0 <= j < i ==> keys@[j] != k,
        decreases keys.len() - i,
    {
        if keys[i] == k {
            return true;
        }
        i = i + 1;
    }
    false
}

/// Whether a binding's modifier is satisfied: there is none, or it is held.
pub open spec fn modifier_held(modifier: Option<u32>, keys: Seq<u32>) -> bool {
    match modifier {
        Some(k) => keys.contains(k),
        None => true,
    }
}

/// Whether the button of a binding is in `buttons` with its modifier satisfied.
pub open spec fn binding_in(button: MouseButton, modifier: Option<u32>, buttons: Seq<MouseButton>, keys: Seq<u32>) -> bool {
    buttons.contains(button) && modifier_held(modifier, keys)
}

fn binding_active(button: MouseButton, modifier: Option<u32>, buttons: &Vec<MouseButton>, keys: &Vec<u32>) -> (r: bool)
    ensures
        r == binding_in(button, modifier, buttons@, keys@),
{
    let held = match modifier {
        Some(k) => contains_key(keys, k),
        None => true,
    };
    held && contains_button(buttons, button)
}

impl PanOrbitCamera {
    /// Whether the orbit binding is held.
    pub fn orbit_pressed(&self, input: &FrameInput) -> (r: bool)
        ensures
            r == binding_in(self.button_orbit, self.modifier_orbit, input.pressed_buttons@, input.pressed_keys@),
    {
        binding_active(self.button_orbit, self.modifier_orbit, &input.pressed_buttons, &input.pressed_keys)
    }

    /// Whether the orbit binding was pressed this frame.
    pub fn orbit_just_pressed(&self, input: &FrameInput) -> (r: bool)
        ensures
            r == binding_in(self.button_orbit, self.modifier_orbit, input.just_pressed_buttons@, input.pressed_keys@),
    {
        binding_active(self.button_orbit, self.modifier_orbit, &input.just_pressed_buttons, &input.pressed_keys)
    }

    /// Whether the orbit binding was released this frame.
    pub fn orbit_just_released(&self, input: &FrameInput) -> (r: bool)
        ensures
            r == binding_in(self.button_orbit, self.modifier_orbit, input.just_released_buttons@, input.pressed_keys@),
    {
        binding_active(self.button_orbit, self.modifier_orbit, &input.just_released_buttons, &input.pressed_keys)
    }

    /// Whether the pan binding is held.
    pub fn pan_pressed(&self, input: &FrameInput) -> (r: bool)
        ensures
            r == binding_in(self.button_pan, self.modifier_pan, input.pressed_buttons@, input.pressed_keys@),
    {
        binding_active(self.button_pan, self.modifier_pan, &input.pressed_buttons, &input.pressed_keys)
    }

    /// Whether the pan binding was pressed this frame.
    pub fn pan_just_pressed(&self, input: &FrameInput) -> (r: bool)
        ensures
            r == binding_in(self.button_pan, self.modifier_pan, input.just_pressed_buttons@, input.pressed_keys@),
    {
        binding_active(self.button_pan, self.modifier_pan, &input.just_pressed_buttons, &input.pressed_keys)
    }

    /// Whether touchpad scrolling orbits instead of panning: the touchpad
    /// modifier is configured and held.
    pub fn touchpad_orbits(&self, input: &FrameInput) -> (r: bool)
        ensures
            r == (self.modifier_orbit_touchpad is Some && input.pressed_keys@.contains(
                self.modifier_orbit_touchpad.unwrap(),
            )),
    {
        match self.modifier_orbit_touchpad {
            Some(k) => contains_key(&input.pressed_keys, k),
            None => false,
        }
    }

    /// Whether this frame's input may make this camera the active one: its
    /// orbit or pan binding was just pressed, or any scroll event came.
    pub fn input_activated(&self, input: &FrameInput) -> (r: bool)
        ensures
            r == (binding_in(self.button_orbit, self.modifier_orbit, input.just_pressed_buttons@, input.pressed_keys@)
                || binding_in(self.button_pan, self.modifier_pan, input.just_pressed_buttons@, input.pressed_keys@)
                || input.scroll_events@.len() > 0),
    {
        self.orbit_just_pressed(input) || self.pan_just_pressed(input) || input.scroll_events.len() > 0
    }
}

} // verus!
