use vstd::prelude::*;

use crate::bird::flap_spec;
use crate::bird::gravity_spec;
use crate::bird::Bird;
use crate::bird::BirdView;
use crate::gap_size_at;
use crate::obstacle::hits;
use crate::obstacle::obstacle_cells_ok;
use crate::obstacle::Obstacle;
use crate::obstacle::ObstacleView;
use crate::obstacle::GAP_Y_MAX;
use crate::obstacle::GAP_Y_MIN;
use crate::Cell;
use crate::FRAME_DURATION;
use crate::SCREEN_HEIGHT;
use crate::SCREEN_WIDTH;

verus! {

/// Column the bird starts in at every (re)start.
pub const BIRD_START_X: i32 = 5;

/// Row the bird starts in at every (re)start.
pub const BIRD_START_Y: i32 = 25;

/// The three modes a session can be in; exactly one is active at a time.
#[derive(Clone, Copy, Debug, PartialEq, Eq, Structural)]
pub enum GameMode {
    Menu,
    Playing,
    Ending,
}

/// The three key bindings the game recognizes. Any other key the driver
/// reports arrives as `Other` and is ignored.
#[derive(Clone, Copy, Debug, PartialEq, Eq, Structural)]
pub enum Key {
    /// The primary action: start or restart a session.
    Start,
    /// Quit the game.
    Quit,
    /// An upward impulse while playing.
    Flap,
    /// Any key without a binding.
    Other,
}

/// One whole game session: the current mode, the live entities, the score,
/// and the accumulator that gates physics steps to a fixed cadence.
pub struct State {
    pub mode: GameMode,
    pub bird: Bird,
    /// Milliseconds of real time accumulated since the last physics step.
    pub frame_time: u64,
    pub obstacle: Obstacle,
    pub score: i32,
}

/// Mathematical model of a [`State`].
pub ghost struct StateView {
    pub mode: GameMode,
    pub bird: BirdView,
    pub frame_time: int,
    pub obstacle: ObstacleView,
    pub score: int,
}

impl View for State {
    type V = StateView;

    open spec fn view(&self) -> StateView {
        StateView {
            mode: self.mode,
            bird: self.bird@,
            frame_time: self.frame_time as int,
            obstacle: self.obstacle@,
            score: self.score as int,
        }
    }
}

impl StateView {
    /// Every state the session can reach: well-formed entities, a physics
    /// accumulator that never holds more than one step's worth of time, and
    /// a score that never goes negative.
    pub open spec fn wf(self) -> bool {
        &&& self.bird.wf()
        &&& self.obstacle.wf()
        &&& 0 <= self.frame_time <= FRAME_DURATION
        &&& self.score >= 0
    }
}

/// The fields every (re)start resets, whatever came before: a fresh bird at
/// its start position, a fresh obstacle one screen width ahead spawned at
/// score 0, the score and the physics accumulator cleared. Only the gap
/// center of the fresh obstacle is left open: it is drawn at random.
pub open spec fn reset_fields(s: StateView) -> bool {
    &&& s.bird == (BirdView { x: BIRD_START_X as int, y: BIRD_START_Y as int, velocity: 0 })
    &&& s.frame_time == 0
    &&& s.obstacle.x == SCREEN_WIDTH
    &&& s.obstacle.size == gap_size_at(0)
    &&& GAP_Y_MIN <= s.obstacle.gap_y < GAP_Y_MAX
    &&& s.score == 0
}

/// A state just produced by `restart`: all fields reset and the mode Playing.
pub open spec fn restarted(s: StateView) -> bool {
    &&& reset_fields(s)
    &&& s.mode == GameMode::Playing
}

/// What one menu or ending tick does with the key it saw: the primary action
/// restarts the session, the quit key asks the driver to terminate and
/// leaves the state alone, and everything else is a no-op.
pub open spec fn menu_step(pre: StateView, post: StateView, key: Option<Key>, quit: bool) -> bool {
    match key {
        Some(Key::Start) => restarted(post) && !quit,
        Some(Key::Quit) => post == pre && quit,
        _ => post == pre && !quit,
    }
}

/// What one playing tick does, given the elapsed real time and the key it
/// saw. In order: the accumulator gates at most one gravity step; a flap
/// key applies immediately, ungated; the obstacle is rendered against the
/// bird's post-physics column (`cells`); then, if the bird's column has
/// passed the obstacle's, the score rises by one and a fresh obstacle is
/// spawned one screen width ahead of the bird at the new score; finally the
/// mode switches to Ending iff the bird fell out of the world or collides
/// with the (possibly fresh) obstacle.
pub open spec fn play_step(
    pre: StateView,
    post: StateView,
    elapsed_ms: int,
    key: Option<Key>,
    cells: Seq<Cell>,
) -> bool {
    let stepped = pre.frame_time + elapsed_ms > FRAME_DURATION;
    let b1 = if stepped {
        gravity_spec(pre.bird)
    } else {
        pre.bird
    };
    let b2 = if key == Some(Key::Flap) {
        flap_spec(b1)
    } else {
        b1
    };
    let passed = b2.x > pre.obstacle.x;
    let dead = b2.y > SCREEN_HEIGHT || hits(post.obstacle, b2.x, b2.y);
    &&& post.bird == b2
    &&& post.frame_time == if stepped {
        0int
    } else {
        pre.frame_time + elapsed_ms
    }
    &&& post.score == pre.score + if passed {
        1int
    } else {
        0int
    }
    &&& if passed {
        &&& post.obstacle.x == b2.x + SCREEN_WIDTH
        &&& post.obstacle.size == gap_size_at(post.score)
        &&& GAP_Y_MIN <= post.obstacle.gap_y < GAP_Y_MAX
    } else {
        post.obstacle == pre.obstacle
    }
    &&& post.mode == if dead {
        GameMode::Ending
    } else {
        pre.mode
    }
    &&& obstacle_cells_ok(cells, pre.obstacle, b2.x)
}

impl State {
    /// A fresh session: all fields reset, in Menu mode.
    pub fn new() -> (s: State)
        ensures
            reset_fields(s@),
            s@.mode == GameMode::Menu,
            s@.wf(),
    {
        State {
            bird: Bird::new(BIRD_START_X, BIRD_START_Y),
            mode: GameMode::Menu,
            frame_time: 0,
            obstacle: Obstacle::new(SCREEN_WIDTH, 0),
            score: 0,
        }
    }

    /// Reset the session and start playing, whatever came before.
    pub fn restart(&mut self)
        ensures
            restarted(final(self)@),
            final(self)@.wf(),
    {
        self.mode = GameMode::Playing;
        self.frame_time = 0;
        self.bird = Bird::new(BIRD_START_X, BIRD_START_Y);
        self.obstacle = Obstacle::new(SCREEN_WIDTH, 0);
        self.score = 0;
    }

    /// One tick in Menu mode: dispatch the key per [`menu_step`]. The
    /// returned flag asks the driver to terminate the process.
    pub fn main_menu(&mut self, key: Option<Key>) -> (quit: bool)
        requires
            old(self)@.wf(),
        ensures
            menu_step(old(self)@, final(self)@, key, quit),
            final(self)@.wf(),
    {
        match key {
            Some(Key::Start) => {
                self.restart();
                false
            },
            Some(Key::Quit) => true,
            _ => false,
        }
    }

    /// One tick in Ending mode: the score screen dispatches keys exactly as
    /// the menu does, per [`menu_step`].
    pub fn dead(&mut self, key: Option<Key>) -> (quit: bool)
        requires
            old(self)@.wf(),
        ensures
            menu_step(old(self)@, final(self)@, key, quit),
            final(self)@.wf(),
    {
        match key {
            Some(Key::Start) => {
                self.restart();
                false
            },
            Some(Key::Quit) => true,
            _ => false,
        }
    }

    /// One tick in Playing mode, per [`play_step`]: accumulate `elapsed_ms`
    /// and gate one gravity step behind the fixed cadence, apply a flap
    /// immediately, then score, respawn and check the death condition. The
    /// returned cells are the obstacle as rendered this tick, against the
    /// bird's post-physics column.
    pub fn play(&mut self, elapsed_ms: u32, key: Option<Key>) -> (cells: Vec<Cell>)
        requires
            old(self)@.wf(),
            old(self).bird.x + 1 + SCREEN_WIDTH <= i32::MAX,
            old(self).bird.y + 2 <= i32::MAX,
            old(self).score < i32::MAX,
            i32::MIN < old(self).obstacle.x - old(self).bird.x <= i32::MAX,
        ensures
            play_step(old(self)@, final(self)@, elapsed_ms as int, key, cells@),
            final(self)@.wf(),
    {
        self.frame_time = self.frame_time + elapsed_ms as u64;
        if self.frame_time > FRAME_DURATION {
            self.frame_time = 0;
            self.bird.gravity();
        }
        match key {
            Some(Key::Flap) => self.bird.flap(),
            _ => {},
        }
        let cells = self.obstacle.render(self.bird.x);
        if self.bird.x > self.obstacle.x {
            self.score = self.score + 1;
            self.obstacle = Obstacle::new(self.bird.x + SCREEN_WIDTH, self.score);
        }
        if self.bird.y > SCREEN_HEIGHT || self.obstacle.hit_obstacle(&self.bird) {
            self.mode = GameMode::Ending;
        }
        cells
    }

    /// One tick of the whole session: dispatch on the current mode. In Menu
    /// and Ending the returned cell list is empty and the flag may ask the
    /// driver to terminate; in Playing the flag is never set and the cells
    /// are the obstacle as rendered this tick.
    pub fn tick(&mut self, elapsed_ms: u32, key: Option<Key>) -> (r: (bool, Vec<Cell>))
        requires
            old(self)@.wf(),
            old(self)@.mode == GameMode::Playing ==> {
                &&& old(self).bird.x + 1 + SCREEN_WIDTH <= i32::MAX
                &&& old(self).bird.y + 2 <= i32::MAX
                &&& old(self).score < i32::MAX
                &&& i32::MIN < old(self).obstacle.x - old(self).bird.x <= i32::MAX
            },
        ensures
            final(self)@.wf(),
            match old(self)@.mode {
                GameMode::Playing => play_step(
                    old(self)@,
                    final(self)@,
                    elapsed_ms as int,
                    key,
                    r.1@,
                ) && !r.0,
                _ => menu_step(old(self)@, final(self)@, key, r.0) && r.1@.len() == 0,
            },
    {
        match self.mode {
            GameMode::Menu => {
                let quit = self.main_menu(key);
                (quit, Vec::new())
            },
            GameMode::Playing => {
                let cells = self.play(elapsed_ms, key);
                (false, cells)
            },
            GameMode::Ending => {
                let quit = self.dead(key);
                (quit, Vec::new())
            },
        }
    }
}

/// Within a run of playing ticks the score only increases, by exactly one
/// per obstacle cleared: a tick raises it by one when the bird's
/// post-physics column has passed the obstacle's, and leaves it alone
/// otherwise. Only a restart ever resets it.
pub proof fn lemma_score_only_increases(
    pre: StateView,
    post: StateView,
    elapsed_ms: int,
    key: Option<Key>,
    cells: Seq<Cell>,
)
    requires
        play_step(pre, post, elapsed_ms, key, cells),
    ensures
        pre.score <= post.score <= pre.score + 1,
        post.score == pre.score + 1 <==> post.bird.x > pre.obstacle.x,
{
}

/// Restarting leaves no residue of the prior session: the state after a
/// restart is pinned whatever came before, so restarting twice in
/// succession yields the same state as restarting once — up to the one
/// field a restart draws at random, the fresh obstacle's gap center.
pub proof fn lemma_restart_idempotent(once: StateView, twice: StateView)
    requires
        restarted(once),
        restarted(twice),
        once.obstacle.gap_y == twice.obstacle.gap_y,
    ensures
        once == twice,
{
    assert(once.obstacle == twice.obstacle);
    assert(once == twice);
}

} // verus!
