use vstd::prelude::*;
use crate::fixed::Vector2;

verus! {

/// Which camera handles input this frame, with the sizes used to scale that
/// input. `manual` hands the record over to the application: the resolver then
/// leaves it alone.
#[derive(Clone, Copy, Debug, PartialEq, Eq, Structural)]
pub struct ActiveCameraData {
    /// Identifier of the camera that handles input, if any.
    pub entity: Option<u64>,
    /// Logical size of that camera's viewport; scales panning.
    pub viewport_size: Option<Vector2>,
    /// Logical size of that camera's window; scales orbiting.
    pub window_size: Option<Vector2>,
    /// Whether the application manages this record itself.
    pub manual: bool,
}

impl ActiveCameraData {
    /// The empty record: no active camera, no sizes, not manual.
    pub open spec fn empty() -> ActiveCameraData {
        ActiveCameraData { entity: None, viewport_size: None, window_size: None, manual: false }
    }
}

impl Default for ActiveCameraData {
    fn default() -> (r: ActiveCameraData)
        ensures
            r == ActiveCameraData::empty(),
    {
        ActiveCameraData { entity: None, viewport_size: None, window_size: None, manual: false }
    }
}

/// An axis-aligned rectangle in logical window coordinates.
#[derive(Clone, Copy, Debug, PartialEq, Eq, Structural)]
pub struct Rect {
    pub min: Vector2,
    pub max: Vector2,
}

/// A window as the resolver sees it: its logical size and, when the pointer is
/// over it, the pointer's position.
#[derive(Clone, Copy, Debug, PartialEq, Eq, Structural)]
pub struct WindowView {
    pub size: Vector2,
    pub cursor: Option<Vector2>,
}

/// One orbit camera as the resolver sees it this frame.
#[derive(Clone, Copy, Debug, PartialEq, Eq, Structural)]
pub struct ViewportCamera {
    /// The camera's identifier.
    pub entity: u64,
    /// Draw order: higher is drawn later, on top.
    pub order: isize,
    /// Whether this camera's orbit or pan binding was just pressed, or any
    /// scroll event came this frame.
    pub input_activated: bool,
    /// The window the camera renders to; `None` when it renders elsewhere.
    pub window: Option<WindowView>,
    /// The camera's logical viewport rectangle, if known.
    pub viewport_rect: Option<Rect>,
    /// The camera's logical viewport size, if known.
    pub viewport_size: Option<Vector2>,
}

/// Whether `p` lies strictly inside `r`.
pub open spec fn strictly_inside(p: Vector2, r: Rect) -> bool {
    r.min.x < p.x && p.x < r.max.x && r.min.y < p.y && p.y < r.max.y
}

/// Whether the camera can take input this frame: its input was activated and
/// the pointer lies strictly inside its viewport, in its window.
pub open spec fn wants_input(c: ViewportCamera) -> bool {
    &&& c.input_activated
    &&& c.window is Some
    &&& c.window.unwrap().cursor is Some
    &&& c.viewport_rect is Some
    &&& strictly_inside(c.window.unwrap().cursor.unwrap(), c.viewport_rect.unwrap())
}

/// The record that makes `c` the active camera.
pub open spec fn record_for(c: ViewportCamera) -> ActiveCameraData {
    ActiveCameraData {
        entity: Some(c.entity),
        viewport_size: c.viewport_size,
        window_size: Some(c.window.unwrap().size),
        manual: false,
    }
}

/// The candidate record after scanning the first `n` cameras, with the highest
/// draw order chosen so far (starting from 0). A camera replaces the candidate
/// when it wants input and its order is at least that highest order.
pub open spec fn scan(cams: Seq<ViewportCamera>, n: nat) -> (ActiveCameraData, int)
    decreases n,
{
    if n == 0 || n > cams.len() {
        (ActiveCameraData::empty(), 0)
    } else {
        let (rec, best) = scan(cams, (n - 1) as nat);
        let c = cams[n - 1];
        if wants_input(c) && c.order >= best {
            (record_for(c), c.order as int)
        } else {
            (rec, best)
        }
    }
}

/// The record the resolver computes from all cameras.
pub open spec fn resolved(cams: Seq<ViewportCamera>) -> ActiveCameraData {
    scan(cams, cams.len()).0
}

/// Whether any camera's input was activated this frame.
pub open spec fn any_input(cams: Seq<ViewportCamera>) -> bool {
    exists|i: int| 0 <= i < cams.len() && #[trigger] cams[i].input_activated
}

/// The record after the resolver ran: unchanged when it is manual or when no
/// input came, else the resolved record.
pub open spec fn resolver_result(old: ActiveCameraData, cams: Seq<ViewportCamera>) -> ActiveCameraData {
    if old.manual || !any_input(cams) {
        old
    } else {
        resolved(cams)
    }
}

/// Decides which camera takes this frame's input, and writes it to `active`
/// unless the record is manual or no input came. Returns whether the record
/// changed; an equal record is not written.
pub fn active_viewport_data(active: &mut ActiveCameraData, cameras: &Vec<ViewportCamera>) -> (changed: bool)
    ensures
        *final(active) == resolver_result(*old(active), cameras@),
        old(active).manual ==> *final(active) == *old(active),
        changed == (*final(active) != *old(active)),
{
    if active.manual {
        return false;
    }
    let mut candidate = ActiveCameraData::default();
    let mut best: isize = 0;
    let mut has_input = false;
    let mut i: usize = 0;
    while i < cameras.len()
        invariant
            i <= cameras.len(),
            (candidate, best as int) == scan(cameras@, i as nat),
            has_input == (exists|j: int| 0 <= j < i && #[trigger] cameras@[j].input_activated),
        decreases cameras.len() - i,
    {
        let c = cameras[i];
        if c.input_activated {
            has_input = true;
            if let Some(window) = c.window {
                if let Some(cursor) = window.cursor {
                    if let Some(rect) = c.viewport_rect {
                        let inside = rect.min.x < cursor.x && cursor.x < rect.max.x
                            && rect.min.y < cursor.y && cursor.y < rect.max.y;
                        if inside && c.order >= best {
                            candidate = ActiveCameraData {
                                entity: Some(c.entity),
                                viewport_size: c.viewport_size,
                                window_size: Some(window.size),
                                manual: false,
                            };
                            best = c.order;
                        }
                    }
                }
            }
        }
        i = i + 1;
    }
    if has_input && candidate != *active {
        *active = candidate;
        true
    } else {
        false
    }
}

/// Of two cameras that both want input where their viewports overlap, the one
/// with the higher draw order wins, whichever of the two is listed first.
pub proof fn higher_order_wins(low: ViewportCamera, high: ViewportCamera)
    requires
        wants_input(low),
        wants_input(high),
        0 <= low.order < high.order,
    ensures
        resolved(seq![low, high]).entity == Some(high.entity),
        resolved(seq![high, low]).entity == Some(high.entity),
{
    reveal_with_fuel(scan, 3);
}

/// A manual record is never touched by the resolver, whatever the input.
pub proof fn manual_record_kept(old: ActiveCameraData, cams: Seq<ViewportCamera>)
    requires
        old.manual,
    ensures
        resolver_result(old, cams) == old,
{
}

} // verus!
