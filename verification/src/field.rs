//! The playable field: positions in fixed-point subunits, per-frame
//! movement with clamping, and pickup detection by squared distance.

use vstd::prelude::*;

verus! {

/// Width of the whole field, in field units.
pub const FIELD_WIDTH: u32 = 640;
/// Height of the whole field, in field units.
pub const FIELD_HEIGHT: u32 = 480;
/// Side of the (square) player and item sprites, in field units.
pub const SPRITE_SIZE: u32 = 32;
/// Fixed-point scale: subunits per field unit.
pub const SUBUNIT: u32 = 65536;

/// Largest x an anchor may take, in subunits:
/// (FIELD_WIDTH - SPRITE_SIZE) * SUBUNIT.
pub const X_LIMIT: u32 = 39845888;
/// Largest y an anchor may take, in subunits:
/// (FIELD_HEIGHT - SPRITE_SIZE) * SUBUNIT.
pub const Y_LIMIT: u32 = 29360128;

/// Playable width in field units: FIELD_WIDTH - SPRITE_SIZE.
pub const X_SPAN: u32 = 608;
/// Playable height in field units: FIELD_HEIGHT - SPRITE_SIZE.
pub const Y_SPAN: u32 = 448;

/// Distance moved along one axis in one frame, in subunits: 5 * SUBUNIT.
pub const PLAYER_STEP: u32 = 327680;

/// Pickup threshold on the squared distance between the two anchors:
/// 900 square field units (a 30-unit radius), in squared subunits:
/// 900 * SUBUNIT * SUBUNIT.
pub const PICKUP_DIST2: u64 = 3865470566400;

/// The x where the player starts a session, in subunits: 320 * SUBUNIT.
pub const START_X: u32 = 20971520;
/// The y where the player starts a session, in subunits: 240 * SUBUNIT.
pub const START_Y: u32 = 15728640;

/// A top-left sprite anchor on the field, in subunits.
#[derive(Clone, Copy, Debug, PartialEq, Eq, Structural)]
pub struct Position {
    pub x: u32,
    pub y: u32,
}

impl Position {
    /// The anchor lies inside the playable rectangle.
    pub open spec fn wf(self) -> bool {
        self.x <= X_LIMIT && self.y <= Y_LIMIT
    }
}

/// Pressed-state of the four movement keys.
#[derive(Clone, Copy, Debug, PartialEq, Eq, Structural)]
pub struct MoveFlags {
    pub left: bool,
    pub down: bool,
    pub up: bool,
    pub right: bool,
}

impl MoveFlags {
    /// All four keys released.
    pub open spec fn clear() -> MoveFlags {
        MoveFlags { left: false, down: false, up: false, right: false }
    }
}

/// One coordinate moved down by `step`, stopping at 0.
pub open spec fn dec_clamped(v: u32, step: u32) -> u32 {
    if v >= step {
        (v - step) as u32
    } else {
        0
    }
}

/// One coordinate moved up by `step`, stopping at `limit`.
pub open spec fn inc_clamped(v: u32, step: u32, limit: u32) -> u32 {
    if v + step <= limit {
        (v + step) as u32
    } else {
        limit
    }
}

/// The x coordinate after one frame of movement: left is applied first,
/// then right, each clamped to the field.
pub open spec fn moved_x(x: u32, left: bool, right: bool) -> u32 {
    let after_left = if left { dec_clamped(x, PLAYER_STEP) } else { x };
    if right {
        inc_clamped(after_left, PLAYER_STEP, X_LIMIT)
    } else {
        after_left
    }
}

/// The y coordinate after one frame of movement: down is applied first,
/// then up, each clamped to the field.
pub open spec fn moved_y(y: u32, down: bool, up: bool) -> u32 {
    let after_down = if down { inc_clamped(y, PLAYER_STEP, Y_LIMIT) } else { y };
    if up {
        dec_clamped(after_down, PLAYER_STEP)
    } else {
        after_down
    }
}

/// The anchor after one frame of movement under the given flags.
pub open spec fn moved(p: Position, f: MoveFlags) -> Position {
    Position { x: moved_x(p.x, f.left, f.right), y: moved_y(p.y, f.down, f.up) }
}

/// Squared Euclidean distance between two anchors, in squared subunits.
pub open spec fn dist2(p: Position, q: Position) -> int {
    (p.x - q.x) * (p.x - q.x) + (p.y - q.y) * (p.y - q.y)
}

/// Whether the player at `p` picks up the item at `q`: the squared
/// distance is strictly under the threshold.
pub open spec fn pickup(p: Position, q: Position) -> bool {
    dist2(p, q) < PICKUP_DIST2
}

/// Apply one frame of movement to `p` under the flags `f`; each set
/// direction adjusts its axis by one step, clamped to the field. Whatever
/// the flags, the result stays inside the playable rectangle.
pub fn move_step(p: Position, f: MoveFlags) -> (r: Position)
    requires
        p.wf(),
    ensures
        r == moved(p, f),
        r.wf(),
{
    let mut x: u32 = p.x;
    let mut y: u32 = p.y;
    if f.left {
        x = if x >= PLAYER_STEP { x - PLAYER_STEP } else { 0 };
    }
    if f.down {
        y = if y + PLAYER_STEP <= Y_LIMIT { y + PLAYER_STEP } else { Y_LIMIT };
    }
    if f.up {
        y = if y >= PLAYER_STEP { y - PLAYER_STEP } else { 0 };
    }
    if f.right {
        x = if x + PLAYER_STEP <= X_LIMIT { x + PLAYER_STEP } else { X_LIMIT };
    }
    Position { x, y }
}

/// Whether the player at `p` has reached the item at `y`: true exactly
/// when the squared distance between the two anchors is strictly under
/// `PICKUP_DIST2`.
pub fn eaten(p: Position, y: Position) -> (r: bool)
    requires
        p.wf(),
        y.wf(),
    ensures
        r == pickup(p, y),
{
    let dx: u64 = if p.x >= y.x {
        (p.x - y.x) as u64
    } else {
        (y.x - p.x) as u64
    };
    let dy: u64 = if p.y >= y.y {
        (p.y - y.y) as u64
    } else {
        (y.y - p.y) as u64
    };
    proof {
        assert(dx * dx == (p.x - y.x) * (p.x - y.x)) by (nonlinear_arith)
            requires
                dx == p.x - y.x || dx == y.x - p.x,
        ;
        assert(dy * dy == (p.y - y.y) * (p.y - y.y)) by (nonlinear_arith)
            requires
                dy == p.y - y.y || dy == y.y - p.y,
        ;
        assert(dx * dx <= 1587694790508544) by (nonlinear_arith)
            requires
                dx <= 39845888u64,
        ;
        assert(dy * dy <= 862017116176384) by (nonlinear_arith)
            requires
                dy <= 29360128u64,
        ;
    }
    let d2: u64 = dx * dx + dy * dy;
    d2 < PICKUP_DIST2
}

} // verus!
