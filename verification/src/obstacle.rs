use vstd::prelude::*;

use crate::bird::Bird;
use crate::gap_size_at;
use crate::Cell;
use crate::SCREEN_HEIGHT;

verus! {

/// Smallest vertical center the gap of a fresh obstacle can get.
pub const GAP_Y_MIN: i32 = 10;

/// One past the largest vertical center the gap of a fresh obstacle can get.
pub const GAP_Y_MAX: i32 = 40;

/// One obstacle: a vertical bar at world position `x`, pierced by a passable
/// gap of height `size` centered on row `gap_y`.
pub struct Obstacle {
    pub x: i32,
    pub gap_y: i32,
    pub size: i32,
}

/// Mathematical model of an [`Obstacle`].
pub ghost struct ObstacleView {
    pub x: int,
    pub gap_y: int,
    pub size: int,
}

impl View for Obstacle {
    type V = ObstacleView;

    open spec fn view(&self) -> ObstacleView {
        ObstacleView { x: self.x as int, gap_y: self.gap_y as int, size: self.size as int }
    }
}

impl ObstacleView {
    /// The gap is at least its floor of 2 and at most the base of 20, and
    /// its center was drawn from `[GAP_Y_MIN, GAP_Y_MAX)`.
    pub open spec fn wf(self) -> bool {
        &&& 2 <= self.size <= 20
        &&& GAP_Y_MIN <= self.gap_y < GAP_Y_MAX
    }
}

/// Whether a bird at world position `(bx, by)` collides with obstacle `o`.
/// Collision is tested only in the one column where the bird's world `x`
/// exactly equals the obstacle's; there, the obstacle's half-size is applied
/// to the bird's position (the bird itself has no extent), and the bird
/// collides iff that span falls entirely above or entirely below the gap
/// center.
pub open spec fn hits(o: ObstacleView, bx: int, by: int) -> bool {
    let half = o.size / 2;
    &&& bx == o.x
    &&& (by + half < o.gap_y || by - half > o.gap_y)
}

/// What a correct rendering of obstacle `o`, seen from a bird at world
/// column `bird_x`, looks like: every row of the screen except the gap band
/// `[gap_y - half, gap_y + half)` carries one cell, top to bottom, all in
/// the screen column `o.x - bird_x`.
pub open spec fn obstacle_cells_ok(cells: Seq<Cell>, o: ObstacleView, bird_x: int) -> bool {
    let screen_x = o.x - bird_x;
    let half = o.size / 2;
    let top = o.gap_y - half;
    let bottom = o.gap_y + half;
    &&& cells.len() == top + (SCREEN_HEIGHT - bottom)
    &&& forall|i: int| 0 <= i < cells.len() ==> (#[trigger] cells[i]).x == screen_x
    &&& forall|i: int| 0 <= i < top ==> (#[trigger] cells[i]).y == i
    &&& forall|i: int|
        top <= i < cells.len() ==> (#[trigger] cells[i]).y == bottom + (i - top)
}

/// Relies on bracket_lib's `RandomNumberGenerator`: `new` seeds a fresh
/// generator and `range(min, max)` draws uniformly from the half-open range
/// `[min, max)`; called here with the gap-center bounds.
#[verifier::external_body]
fn draw_gap_y() -> (r: i32)
    ensures
        GAP_Y_MIN <= r < GAP_Y_MAX,
{
    let mut random = bracket_lib::random::RandomNumberGenerator::new();
    random.range(GAP_Y_MIN, GAP_Y_MAX)
}

impl Obstacle {
    /// A fresh obstacle at world position `x`, spawned when the score is
    /// `score`: its gap center is drawn at random from
    /// `[GAP_Y_MIN, GAP_Y_MAX)` and its gap height narrows with the score,
    /// floored at 2.
    pub fn new(x: i32, score: i32) -> (o: Obstacle)
        requires
            score >= 0,
        ensures
            o@.x == x as int,
            o@.size == gap_size_at(score as int),
            GAP_Y_MIN <= o@.gap_y < GAP_Y_MAX,
            o@.wf(),
    {
        let size: i32 = if 20 - score >= 2 {
            20 - score
        } else {
            2
        };
        Obstacle { x, gap_y: draw_gap_y(), size }
    }

    /// Whether `bird` collides with this obstacle, per [`hits`].
    pub fn hit_obstacle(&self, bird: &Bird) -> (r: bool)
        requires
            self@.wf(),
        ensures
            r == hits(self@, bird@.x, bird@.y),
    {
        let half_size = self.size / 2;
        let does_x_match = bird.x == self.x;
        let bird_above_gap = bird.y < self.gap_y - half_size;
        let bird_below_gap = bird.y > self.gap_y + half_size;
        does_x_match && (bird_above_gap || bird_below_gap)
    }

    /// The cells this obstacle occupies on screen, seen from a bird at world
    /// column `bird_x`: its whole column except the gap band, per
    /// [`obstacle_cells_ok`].
    pub fn render(&self, bird_x: i32) -> (cells: Vec<Cell>)
        requires
            self@.wf(),
            i32::MIN <= self@.x - bird_x <= i32::MAX,
        ensures
            obstacle_cells_ok(cells@, self@, bird_x as int),
    {
        let screen_x = self.x - bird_x;
        let half_size = self.size / 2;
        let top = self.gap_y - half_size;
        let bottom = self.gap_y + half_size;
        let mut cells: Vec<Cell> = Vec::new();
        let mut y: i32 = 0;
        while y < top
            invariant
                self@.wf(),
                half_size == self@.size / 2,
                top == self@.gap_y - half_size,
                screen_x == self@.x - bird_x,
                0 <= y <= top,
                cells@.len() == y,
                forall|i: int| 0 <= i < cells@.len() ==> (#[trigger] cells@[i]).x == screen_x,
                forall|i: int| 0 <= i < cells@.len() ==> (#[trigger] cells@[i]).y == i,
            decreases top - y,
        {
            cells.push(Cell { x: screen_x, y });
            y = y + 1;
        }
        let mut row: i32 = bottom;
        while row < SCREEN_HEIGHT
            invariant
                self@.wf(),
                half_size == self@.size / 2,
                top == self@.gap_y - half_size,
                bottom == self@.gap_y + half_size,
                screen_x == self@.x - bird_x,
                bottom <= row <= SCREEN_HEIGHT,
                cells@.len() == top + (row - bottom),
                forall|i: int| 0 <= i < cells@.len() ==> (#[trigger] cells@[i]).x == screen_x,
                forall|i: int| 0 <= i < top ==> (#[trigger] cells@[i]).y == i,
                forall|i: int|
                    top <= i < cells@.len() ==> (#[trigger] cells@[i]).y == bottom + (i - top),
            decreases SCREEN_HEIGHT - row,
        {
            cells.push(Cell { x: screen_x, y: row });
            row = row + 1;
        }
        cells
    }
}

} // verus!
