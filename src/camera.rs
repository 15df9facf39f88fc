use vstd::prelude::*;
use crate::fixed::{UNIT, Vector3};
use crate::limits::{apply_limits, apply_zoom_limits, limited, zoom_limited, ZOOM_FLOOR};
use crate::smoothing::valid_smoothness;

verus! {

/// A mouse button that an action can be bound to.
#[derive(Clone, Copy, Debug, PartialEq, Eq, Structural)]
pub enum MouseButton {
    Left,
    Right,
    Middle,
    Other(u16),
}

/// The state and configuration of one orbit camera.
///
/// Values are fixed-point millionths (see [`crate::fixed::UNIT`]): angles in
/// radians, distances in world units, smoothness and sensitivity as factors.
/// `alpha`, `beta`, `radius` and `scale` stay `None` until the camera is
/// initialized from its transform.
#[derive(Clone, Copy, Debug, PartialEq, Eq, Structural)]
pub struct PanOrbitCamera {
    /// The point orbited around and looked at. Follows `target_focus`.
    pub focus: Vector3,
    /// Distance from `focus` (perspective projection).
    pub radius: Option<i64>,
    /// Projection scale (orthographic projection).
    pub scale: Option<i64>,
    /// Rotation around the world up axis (longitudinal).
    pub alpha: Option<i64>,
    /// Rotation around the local lateral axis (latitudinal).
    pub beta: Option<i64>,
    /// Where `focus` moves to.
    pub target_focus: Vector3,
    /// Where `alpha` moves to.
    pub target_alpha: i64,
    /// Where `beta` moves to.
    pub target_beta: i64,
    /// Where `radius` moves to.
    pub target_radius: i64,
    /// Where `scale` moves to.
    pub target_scale: i64,
    pub alpha_upper_limit: Option<i64>,
    pub alpha_lower_limit: Option<i64>,
    pub beta_upper_limit: Option<i64>,
    pub beta_lower_limit: Option<i64>,
    /// Upper limit of the zoom value (radius or scale).
    pub zoom_upper_limit: Option<i64>,
    /// Lower limit of the zoom value; the value never goes below 0.05 anyway.
    pub zoom_lower_limit: Option<i64>,
    pub focus_x_upper_limit: Option<i64>,
    pub focus_x_lower_limit: Option<i64>,
    pub focus_y_upper_limit: Option<i64>,
    pub focus_y_lower_limit: Option<i64>,
    pub focus_z_upper_limit: Option<i64>,
    pub focus_z_lower_limit: Option<i64>,
    pub orbit_sensitivity: i64,
    /// From 0 (none) to one unit (no movement).
    pub orbit_smoothness: i64,
    pub pan_sensitivity: i64,
    /// From 0 (none) to one unit (no movement).
    pub pan_smoothness: i64,
    pub zoom_sensitivity: i64,
    /// From 0 (none) to one unit (no movement).
    pub zoom_smoothness: i64,
    /// Button that orbits.
    pub button_orbit: MouseButton,
    /// Button that pans.
    pub button_pan: MouseButton,
    /// Key code that must be held for `button_orbit` to orbit.
    pub modifier_orbit: Option<u32>,
    /// Key code that must be held for `button_pan` to pan.
    pub modifier_pan: Option<u32>,
    /// Key code that turns touchpad scrolling from panning into orbiting.
    pub modifier_orbit_touchpad: Option<u32>,
    /// Reverses the zoom direction of line scrolling.
    pub reversed_zoom: bool,
    /// Whether the camera is upside down; recomputed when orbiting starts or ends.
    pub is_upside_down: bool,
    /// Whether `target_beta` may leave [-π/2, π/2].
    pub allow_upside_down: bool,
    /// Whether input moves the camera.
    pub enabled: bool,
    /// Whether the camera has been initialized from its transform.
    pub initialized: bool,
    /// Forces one transform update, then clears itself.
    pub force_update: bool,
}

impl PanOrbitCamera {
    /// The smoothing factors are all valid.
    pub open spec fn valid_config(&self) -> bool {
        &&& valid_smoothness(self.orbit_smoothness)
        &&& valid_smoothness(self.pan_smoothness)
        &&& valid_smoothness(self.zoom_smoothness)
    }

    /// The camera's invariant: a valid configuration; `alpha`, `beta` and
    /// `radius` are all set exactly when the camera is initialized; and the zoom
    /// values (radius and scale), when set, are never below the hard floor.
    pub open spec fn wf(&self) -> bool {
        &&& self.valid_config()
        &&& self.initialized <==> (self.alpha is Some && self.beta is Some && self.radius is Some)
        &&& self.radius is Some ==> self.radius.unwrap() >= ZOOM_FLOOR
        &&& self.scale is Some ==> self.scale.unwrap() >= ZOOM_FLOOR
    }

    /// Clamps an alpha value to this camera's alpha limits.
    pub fn apply_alpha_limits(&self, alpha: i64) -> (r: i64)
        ensures
            r == limited(alpha as int, self.alpha_upper_limit, self.alpha_lower_limit),
    {
        apply_limits(alpha, self.alpha_upper_limit, self.alpha_lower_limit)
    }

    /// Clamps a beta value to this camera's beta limits.
    pub fn apply_beta_limits(&self, beta: i64) -> (r: i64)
        ensures
            r == limited(beta as int, self.beta_upper_limit, self.beta_lower_limit),
    {
        apply_limits(beta, self.beta_upper_limit, self.beta_lower_limit)
    }

    /// Clamps a zoom value to this camera's zoom limits and the hard floor.
    pub fn apply_zoom_limits(&self, zoom: i64) -> (r: i64)
        ensures
            r == zoom_limited(zoom as int, self.zoom_upper_limit, self.zoom_lower_limit),
            r >= ZOOM_FLOOR,
    {
        apply_zoom_limits(zoom, self.zoom_upper_limit, self.zoom_lower_limit)
    }

    /// A focus point clamped to this camera's per-axis focus limits.
    pub open spec fn focus_limited(&self, f: Vector3) -> Vector3 {
        Vector3 {
            x: limited(f.x as int, self.focus_x_upper_limit, self.focus_x_lower_limit) as i64,
            y: limited(f.y as int, self.focus_y_upper_limit, self.focus_y_lower_limit) as i64,
            z: limited(f.z as int, self.focus_z_upper_limit, self.focus_z_lower_limit) as i64,
        }
    }

    /// Clamps each axis of a focus point to this camera's focus limits.
    pub fn apply_focus_limits(&self, focus: Vector3) -> (r: Vector3)
        ensures
            r == self.focus_limited(focus),
    {
        Vector3 {
            x: apply_limits(focus.x, self.focus_x_upper_limit, self.focus_x_lower_limit),
            y: apply_limits(focus.y, self.focus_y_upper_limit, self.focus_y_lower_limit),
            z: apply_limits(focus.z, self.focus_z_upper_limit, self.focus_z_lower_limit),
        }
    }
}

impl PanOrbitCamera {
    /// The configuration a new camera starts with.
    pub open spec fn default_spec() -> PanOrbitCamera {
        PanOrbitCamera {
            focus: Vector3 { x: 0, y: 0, z: 0 },
            radius: None,
            scale: None,
            alpha: None,
            beta: None,
            target_focus: Vector3 { x: 0, y: 0, z: 0 },
            target_alpha: 0,
            target_beta: 0,
            target_radius: UNIT,
            target_scale: UNIT,
            alpha_upper_limit: None,
            alpha_lower_limit: None,
            beta_upper_limit: None,
            beta_lower_limit: None,
            zoom_upper_limit: None,
            zoom_lower_limit: None,
            focus_x_upper_limit: None,
            focus_x_lower_limit: None,
            focus_y_upper_limit: None,
            focus_y_lower_limit: None,
            focus_z_upper_limit: None,
            focus_z_lower_limit: None,
            orbit_sensitivity: UNIT,
            orbit_smoothness: 800_000,
            pan_sensitivity: UNIT,
            pan_smoothness: 600_000,
            zoom_sensitivity: UNIT,
            zoom_smoothness: 800_000,
            button_orbit: MouseButton::Left,
            button_pan: MouseButton::Right,
            modifier_orbit: None,
            modifier_pan: None,
            modifier_orbit_touchpad: None,
            reversed_zoom: false,
            is_upside_down: false,
            allow_upside_down: false,
            enabled: true,
            initialized: false,
            force_update: false,
        }
    }
}

impl Default for PanOrbitCamera {
    fn default() -> (r: PanOrbitCamera)
        ensures
            r == PanOrbitCamera::default_spec(),
            r.wf(),
    {
        PanOrbitCamera {
            focus: Vector3 { x: 0, y: 0, z: 0 },
            radius: None,
            scale: None,
            alpha: None,
            beta: None,
            target_focus: Vector3 { x: 0, y: 0, z: 0 },
            target_alpha: 0,
            target_beta: 0,
            target_radius: UNIT,
            target_scale: UNIT,
            alpha_upper_limit: None,
            alpha_lower_limit: None,
            beta_upper_limit: None,
            beta_lower_limit: None,
            zoom_upper_limit: None,
            zoom_lower_limit: None,
            focus_x_upper_limit: None,
            focus_x_lower_limit: None,
            focus_y_upper_limit: None,
            focus_y_lower_limit: None,
            focus_z_upper_limit: None,
            focus_z_lower_limit: None,
            orbit_sensitivity: UNIT,
            orbit_smoothness: 800_000,
            pan_sensitivity: UNIT,
            pan_smoothness: 600_000,
            zoom_sensitivity: UNIT,
            zoom_smoothness: 800_000,
            button_orbit: MouseButton::Left,
            button_pan: MouseButton::Right,
            modifier_orbit: None,
            modifier_pan: None,
            modifier_orbit_touchpad: None,
            reversed_zoom: false,
            is_upside_down: false,
            allow_upside_down: false,
            enabled: true,
            initialized: false,
            force_update: false,
        }
    }
}

} // verus!
