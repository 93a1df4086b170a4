//! Per-frame stroke input tracking.
//!
//! Each frame the tracker consumes the raw pointer/keyboard state, the
//! display viewport rectangle and the visible scene rectangle, and derives a
//! fresh `BrushState`: the cursor in image space together with the previous
//! frame's cursor, edge-triggered pointer flags, the weight anchors, the
//! selected tool and color, and the one-shot reset/merge/export requests.

use vstd::prelude::*;
use crate::coords::{to_image, to_image_axis, RectI, SCREEN_LIMIT};
use crate::kernel::{coord_ok, COORD_LIMIT};

verus! {

/// The active editing tool.
#[derive(Clone, Copy, PartialEq, Eq, Structural, Debug)]
pub enum Tool {
    /// Paint along the cursor segment.
    Draw,
    /// Paint the weight-anchor area.
    Weight,
}

/// Raw input of one frame, as handed over by the UI layer.
#[derive(Clone, Copy, PartialEq, Eq, Structural, Debug)]
pub struct RawInput {
    /// Pointer position is known this frame.
    pub has_pointer: bool,
    /// Pointer x in screen subpixels.
    pub pointer_x: i64,
    /// Pointer y in screen subpixels.
    pub pointer_y: i64,
    /// Primary button is down this frame.
    pub pointer_down: bool,
    /// Space (pan modifier) is down.
    pub space_down: bool,
    /// Shift modifier is down.
    pub shift_down: bool,
    /// Enter key is down (its press edge triggers a merge).
    pub enter_down: bool,
    /// The reset button was clicked this frame.
    pub reset_clicked: bool,
    /// The merge button was clicked this frame.
    pub merge_clicked: bool,
    /// The export button was clicked this frame.
    pub export_clicked: bool,
    /// Compute-only debug mode is enabled: painting is suppressed.
    pub compute_only: bool,
    /// The tool selected in the panel.
    pub tool: Tool,
    /// Panel color, sRGB-encoded red.
    pub color_r: u8,
    /// Panel color, sRGB-encoded green.
    pub color_g: u8,
    /// Panel color, sRGB-encoded blue.
    pub color_b: u8,
}

impl RawInput {
    /// Raw pointer coordinates are within the screen range.
    pub open spec fn wf(self) -> bool {
        &&& -SCREEN_LIMIT <= self.pointer_x <= SCREEN_LIMIT
        &&& -SCREEN_LIMIT <= self.pointer_y <= SCREEN_LIMIT
    }
}

/// The per-frame brush state derived from raw input; rebuilt every frame,
/// never persisted.
#[derive(Clone, Copy, PartialEq, Eq, Structural, Debug)]
pub struct BrushState {
    /// sRGB-encoded red of the brush color.
    pub color_r: u8,
    /// sRGB-encoded green of the brush color.
    pub color_g: u8,
    /// sRGB-encoded blue of the brush color.
    pub color_b: u8,
    /// Current cursor x in image subpixels.
    pub cursor_x: i64,
    /// Current cursor y in image subpixels.
    pub cursor_y: i64,
    /// Previous frame's cursor x.
    pub prev_x: i64,
    /// Previous frame's cursor y.
    pub prev_y: i64,
    /// First weight anchor x.
    pub weight_ax: i64,
    /// First weight anchor y.
    pub weight_ay: i64,
    /// Second weight anchor x.
    pub weight_bx: i64,
    /// Second weight anchor y.
    pub weight_by: i64,
    /// The active tool.
    pub tool: Tool,
    /// The pointer went down this frame.
    pub pressed: bool,
    /// The pointer is down this frame and was down last frame.
    pub held: bool,
    /// The pointer went up this frame.
    pub released: bool,
    /// One-shot reset request.
    pub reset_requested: bool,
    /// One-shot merge request.
    pub merge_requested: bool,
    /// One-shot export request.
    pub export_requested: bool,
    /// The pan modifier is held: panning takes priority over painting.
    pub space_held: bool,
    /// The shift modifier is held.
    pub shift_held: bool,
    /// The pointer lies inside the interactive view rectangle.
    pub in_scene: bool,
    /// Compute-only debug mode: painting is suppressed.
    pub compute_only: bool,
}

impl BrushState {
    /// All image-space coordinates are within the modeled range.
    pub open spec fn wf(self) -> bool {
        &&& coord_ok(self.cursor_x)
        &&& coord_ok(self.cursor_y)
        &&& coord_ok(self.prev_x)
        &&& coord_ok(self.prev_y)
        &&& coord_ok(self.weight_ax)
        &&& coord_ok(self.weight_ay)
        &&& coord_ok(self.weight_bx)
        &&& coord_ok(self.weight_by)
    }

    /// A stroke paints this frame: the pointer is held inside the scene and
    /// neither the pan modifier nor compute-only mode suppresses painting.
    pub open spec fn paints(self) -> bool {
        self.held && self.in_scene && !self.space_held && !self.compute_only
    }

    /// A stroke starts this frame, which clears the stencil.
    pub open spec fn starts_stroke(self) -> bool {
        self.pressed && self.in_scene && !self.space_held && !self.compute_only
    }
}

/// Clamps an image-space coordinate into the modeled range.
pub fn clamp_coord(v: i64) -> (r: i64)
    ensures
        r == clamp_coord_spec(v),
        coord_ok(r),
{
    if v < -COORD_LIMIT {
        -COORD_LIMIT
    } else if v > COORD_LIMIT {
        COORD_LIMIT
    } else {
        v
    }
}

/// The clamped coordinate.
pub open spec fn clamp_coord_spec(v: i64) -> i64 {
    if v < -COORD_LIMIT {
        (-COORD_LIMIT) as i64
    } else if v > COORD_LIMIT {
        COORD_LIMIT
    } else {
        v
    }
}

/// The image-space cursor of this frame: the pointer mapped through the
/// viewport/scene transform and clamped to the modeled range.
pub open spec fn cursor_spec(raw: RawInput, view: RectI, scene: RectI) -> (i64, i64) {
    (
        clamp_coord_spec(
            to_image_axis(
                raw.pointer_x as int,
                view.x as int,
                view.w as int,
                scene.x as int,
                scene.w as int,
            ) as i64,
        ),
        clamp_coord_spec(
            to_image_axis(
                raw.pointer_y as int,
                view.y as int,
                view.h as int,
                scene.y as int,
                scene.h as int,
            ) as i64,
        ),
    )
}

/// Persistent tracker state: the trailing cursor, the last frame's button
/// and key state for edge detection, and the weight anchors.
pub struct InputTracker {
    /// Last frame's image-space cursor x.
    pub cursor_x: i64,
    /// Last frame's image-space cursor y.
    pub cursor_y: i64,
    /// The pointer was down last frame.
    pub was_down: bool,
    /// Enter was down last frame.
    pub enter_was_down: bool,
    /// First weight anchor x.
    pub weight_ax: i64,
    /// First weight anchor y.
    pub weight_ay: i64,
    /// Second weight anchor x.
    pub weight_bx: i64,
    /// Second weight anchor y.
    pub weight_by: i64,
}

impl InputTracker {
    /// All stored coordinates are within the modeled range.
    pub open spec fn wf(self) -> bool {
        &&& coord_ok(self.cursor_x)
        &&& coord_ok(self.cursor_y)
        &&& coord_ok(self.weight_ax)
        &&& coord_ok(self.weight_ay)
        &&& coord_ok(self.weight_bx)
        &&& coord_ok(self.weight_by)
    }

    /// A fresh tracker: cursor at the origin, pointer up, anchors at the
    /// default marker positions (100 and 200 pixels in).
    pub fn new() -> (t: InputTracker)
        ensures
            t.wf(),
            !t.was_down,
            !t.enter_was_down,
            t.cursor_x == 0 && t.cursor_y == 0,
            t.weight_ax == 25600 && t.weight_ay == 25600,
            t.weight_bx == 51200 && t.weight_by == 25600,
    {
        InputTracker {
            cursor_x: 0,
            cursor_y: 0,
            was_down: false,
            enter_was_down: false,
            weight_ax: 25600,
            weight_ay: 25600,
            weight_bx: 51200,
            weight_by: 25600,
        }
    }

    /// Consumes one frame of raw input and derives the frame's brush state.
    ///
    /// The cursor is mapped into image space (and keeps updating while the
    /// pointer is outside the view rectangle); the previous cursor is the
    /// one-frame trailing value; pressed/held/released are edge-detected
    /// against the last frame; with the Weight tool active and the pointer
    /// in the scene, a press moves the first weight anchor and a down
    /// pointer moves the second; merge triggers on the panel click or on an
    /// Enter press edge, and is re-armed only by a new edge.
    pub fn update(&mut self, raw: &RawInput, view: &RectI, scene: &RectI) -> (b: BrushState)
        requires
            old(self).wf(),
            raw.wf(),
            view.wf(),
            scene.wf(),
        ensures
            final(self).wf(),
            b.wf(),
            ({
                let cur = if raw.has_pointer {
                    cursor_spec(*raw, *view, *scene)
                } else {
                    (old(self).cursor_x, old(self).cursor_y)
                };
                let in_scene = raw.has_pointer && view.contains_spec(
                    raw.pointer_x as int,
                    raw.pointer_y as int,
                );
                let weight_moves = raw.tool == Tool::Weight && in_scene;
                &&& b.cursor_x == cur.0 && b.cursor_y == cur.1
                &&& b.prev_x == old(self).cursor_x
                &&& b.prev_y == old(self).cursor_y
                &&& b.pressed == (raw.pointer_down && !old(self).was_down)
                &&& b.held == (raw.pointer_down && old(self).was_down)
                &&& b.released == (!raw.pointer_down && old(self).was_down)
                &&& b.in_scene == in_scene
                &&& b.weight_ax == if weight_moves && b.pressed {
                    cur.0
                } else {
                    old(self).weight_ax
                }
                &&& b.weight_ay == if weight_moves && b.pressed {
                    cur.1
                } else {
                    old(self).weight_ay
                }
                &&& b.weight_bx == if weight_moves && raw.pointer_down {
                    cur.0
                } else {
                    old(self).weight_bx
                }
                &&& b.weight_by == if weight_moves && raw.pointer_down {
                    cur.1
                } else {
                    old(self).weight_by
                }
                &&& b.reset_requested == raw.reset_clicked
                &&& b.merge_requested == (raw.merge_clicked || (raw.enter_down && !old(
                    self,
                ).enter_was_down))
                &&& b.export_requested == raw.export_clicked
                &&& b.space_held == raw.space_down
                &&& b.shift_held == raw.shift_down
                &&& b.compute_only == raw.compute_only
                &&& b.tool == raw.tool
                &&& b.color_r == raw.color_r && b.color_g == raw.color_g && b.color_b
                    == raw.color_b
                &&& final(self).cursor_x == b.cursor_x && final(self).cursor_y == b.cursor_y
                &&& final(self).was_down == raw.pointer_down
                &&& final(self).enter_was_down == raw.enter_down
                &&& final(self).weight_ax == b.weight_ax && final(self).weight_ay == b.weight_ay
                &&& final(self).weight_bx == b.weight_bx && final(self).weight_by == b.weight_by
            }),
    {
        let prev_x = self.cursor_x;
        let prev_y = self.cursor_y;
        let (cur_x, cur_y) = if raw.has_pointer {
            let (ix, iy) = to_image(raw.pointer_x, raw.pointer_y, view, scene);
            (clamp_coord(ix), clamp_coord(iy))
        } else {
            (self.cursor_x, self.cursor_y)
        };
        let pressed = raw.pointer_down && !self.was_down;
        let held = raw.pointer_down && self.was_down;
        let released = !raw.pointer_down && self.was_down;
        let in_scene = raw.has_pointer && view.contains(raw.pointer_x, raw.pointer_y);
        let weight_moves = raw.tool == Tool::Weight && in_scene;
        let (wax, way) = if weight_moves && pressed {
            (cur_x, cur_y)
        } else {
            (self.weight_ax, self.weight_ay)
        };
        let (wbx, wby) = if weight_moves && raw.pointer_down {
            (cur_x, cur_y)
        } else {
            (self.weight_bx, self.weight_by)
        };
        let merge = raw.merge_clicked || (raw.enter_down && !self.enter_was_down);
        self.cursor_x = cur_x;
        self.cursor_y = cur_y;
        self.was_down = raw.pointer_down;
        self.enter_was_down = raw.enter_down;
        self.weight_ax = wax;
        self.weight_ay = way;
        self.weight_bx = wbx;
        self.weight_by = wby;
        BrushState {
            color_r: raw.color_r,
            color_g: raw.color_g,
            color_b: raw.color_b,
            cursor_x: cur_x,
            cursor_y: cur_y,
            prev_x,
            prev_y,
            weight_ax: wax,
            weight_ay: way,
            weight_bx: wbx,
            weight_by: wby,
            tool: raw.tool,
            pressed,
            held,
            released,
            reset_requested: raw.reset_clicked,
            merge_requested: merge,
            export_requested: raw.export_clicked,
            space_held: raw.space_down,
            shift_held: raw.shift_down,
            in_scene,
            compute_only: raw.compute_only,
        }
    }
}

} // verus!
