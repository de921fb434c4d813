use vstd::prelude::*;

use crate::Cell;

verus! {

/// Vertical velocity is stored in fifths of a row per physics step, so the
/// tuning values stay exact integers: one gravity increment (0.2 rows) is 1
/// unit, the downward cap (2.0 rows per step) is 10 units, and a flap's
/// upward impulse (-2.0 rows per step) is -10 units.
pub const VELOCITY_UNITS_PER_ROW: i32 = 5;

/// Velocity added by one gravity step, in fifths of a row per step.
pub const GRAVITY_INCREMENT: i32 = 1;

/// Largest downward velocity gravity can build up, in fifths of a row per step.
pub const VELOCITY_CAP: i32 = 10;

/// Velocity a flap sets unconditionally, in fifths of a row per step.
pub const FLAP_VELOCITY: i32 = -10;

/// The player entity. `x` is its world-horizontal position, which grows by
/// exactly one per physics step and doubles as the progress metric; `y` is a
/// screen row (down is positive), clamped so it never goes above the world;
/// `velocity` is the vertical speed in fifths of a row per step.
pub struct Bird {
    pub x: i32,
    pub y: i32,
    pub velocity: i32,
}

/// Mathematical model of a [`Bird`].
pub ghost struct BirdView {
    pub x: int,
    pub y: int,
    pub velocity: int,
}

impl View for Bird {
    type V = BirdView;

    open spec fn view(&self) -> BirdView {
        BirdView { x: self.x as int, y: self.y as int, velocity: self.velocity as int }
    }
}

impl BirdView {
    /// A bird never leaves the top of the world, and gravity never builds
    /// more downward velocity than the cap (a flap sets exactly the same
    /// magnitude upward, so velocity is bounded on both sides).
    pub open spec fn wf(self) -> bool {
        &&& self.y >= 0
        &&& FLAP_VELOCITY <= self.velocity <= VELOCITY_CAP
    }
}

/// Velocity after one gravity step: one increment, unless the cap is reached.
pub open spec fn vel_after_gravity(v: int) -> int {
    if v < VELOCITY_CAP {
        v + GRAVITY_INCREMENT
    } else {
        v
    }
}

/// Whole rows moved at velocity `v`: `v` fifths of a row, truncated toward
/// zero (a fractional part never moves the bird, in either direction).
pub open spec fn rows_moved(v: int) -> int {
    if v >= 0 {
        v / (VELOCITY_UNITS_PER_ROW as int)
    } else {
        -((-v) / (VELOCITY_UNITS_PER_ROW as int))
    }
}

/// Rows are clamped at the top of the world: the bird cannot leave it upward.
pub open spec fn clamp_row(y: int) -> int {
    if y < 0 {
        0
    } else {
        y
    }
}

/// One gravity step: velocity builds up to the cap, the bird advances one
/// column, and it moves by the whole rows of its new velocity, clamped at
/// the top of the world.
pub open spec fn gravity_spec(b: BirdView) -> BirdView {
    let v = vel_after_gravity(b.velocity);
    BirdView { x: b.x + 1, y: clamp_row(b.y + rows_moved(v)), velocity: v }
}

/// A flap: velocity is set, not added, so repeated flaps do not stack.
pub open spec fn flap_spec(b: BirdView) -> BirdView {
    BirdView { velocity: FLAP_VELOCITY as int, ..b }
}

/// `n` gravity steps in a row, with no flap in between.
pub open spec fn gravity_iter(b: BirdView, n: nat) -> BirdView
    decreases n,
{
    if n == 0 {
        b
    } else {
        gravity_spec(gravity_iter(b, (n - 1) as nat))
    }
}

impl Bird {
    /// A fresh bird at `(x, y)` with no vertical motion.
    pub fn new(x: i32, y: i32) -> (b: Bird)
        ensures
            b@ == (BirdView { x: x as int, y: y as int, velocity: 0 }),
    {
        Bird { x, y, velocity: 0 }
    }

    /// One physics step under gravity.
    pub fn gravity(&mut self)
        requires
            old(self)@.wf(),
            old(self).x < i32::MAX,
            old(self).y + 2 <= i32::MAX,
        ensures
            final(self)@ == gravity_spec(old(self)@),
            final(self)@.wf(),
    {
        if self.velocity < VELOCITY_CAP {
            self.velocity = self.velocity + GRAVITY_INCREMENT;
        }
        self.x = self.x + 1;
        let moved: i32 = if self.velocity >= 0 {
            self.velocity / VELOCITY_UNITS_PER_ROW
        } else {
            -((-self.velocity) / VELOCITY_UNITS_PER_ROW)
        };
        self.y = self.y + moved;
        if self.y < 0 {
            self.y = 0;
        }
    }

    /// An upward impulse: sets velocity to [`FLAP_VELOCITY`] unconditionally.
    pub fn flap(&mut self)
        ensures
            final(self)@ == flap_spec(old(self)@),
    {
        self.velocity = FLAP_VELOCITY;
    }

    /// The one cell the bird occupies on screen: its draw column is pinned
    /// at 0 (the world scrolls past it), its row is its vertical position.
    pub fn render(&self) -> (c: Cell)
        ensures
            c.x == 0,
            c.y == self.y,
    {
        Cell { x: 0, y: self.y }
    }
}

/// However the velocity got to its current value — any mix of gravity and
/// flaps — a bird that is inside the world stays at or below its top after
/// any further run of gravity steps: the vertical position is never negative.
pub proof fn lemma_y_never_negative(b: BirdView, n: nat)
    requires
        b.y >= 0,
    ensures
        gravity_iter(b, n).y >= 0,
    decreases n,
{
    if n > 0 {
        lemma_y_never_negative(b, (n - 1) as nat);
    }
}

/// Downward velocity never exceeds the cap after any number of gravity
/// steps without an intervening flap.
pub proof fn lemma_velocity_capped(b: BirdView, n: nat)
    requires
        b.velocity <= VELOCITY_CAP,
    ensures
        gravity_iter(b, n).velocity <= VELOCITY_CAP,
    decreases n,
{
    if n > 0 {
        lemma_velocity_capped(b, (n - 1) as nat);
    }
}

} // verus!
