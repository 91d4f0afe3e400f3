//! The tick-driven game state machine: score, lives, level progression
//! and the terminal states.
//!
//! The game owns one paddle, one obstacle field and one projectile, and
//! advances them one tick at a time. Input arrives as abstract commands;
//! rendering and the real-time tick cadence belong to an external shell
//! that reads the public fields as its snapshot.

use vstd::prelude::*;
use rand::Rng;
use crate::boundary::Boundary;
use crate::command::Command;
use crate::obstacle::{
    blocks_distinct,
    lemma_lvl1_layout_wf,
    lemma_lvl2_layout_wf,
    lvl1_layout,
    lvl2_layout,
    Obstacle,
};
use crate::paddle::{spec_shift, Paddle};
use crate::projectile::{
    blocks_in_rows,
    lemma_fly_keeps_clear_of_bottom,
    spec_fly,
    spec_paddle_phase,
    wall_vx,
    wall_vy,
    Point,
    Projectile,
};

verus! {

/// Number of cells the paddle occupies.
pub const PADDLE_LENGTH: usize = 5;

/// Rows reserved above the play field for the score line.
pub const HAT_SIZE: u32 = 2;

/// The last configured level; clearing it wins the game.
pub const LAST_LVL: u8 = 2;

/// Lives at the start of a session.
pub const INITIAL_LIVES: u8 = 3;

/// Where the session stands. `Running` accepts input and physics; the two
/// terminal states accept neither. A cleared level is resolved within the
/// same tick, so it needs no state of its own.
#[derive(Clone, Copy, Debug, PartialEq, Eq, Structural)]
pub enum Status {
    Running,
    GameOver,
    Victory,
}

/// Relies on `rand::rng` and `rand::Rng::random_range` over the non-empty
/// range `lo..hi`: a draw that always lies in `[lo, hi)`.
#[verifier::external_body]
fn random_in_range(lo: u32, hi: u32) -> (r: u32)
    requires
        lo < hi,
    ensures
        lo <= r < hi,
{
    rand::rng().random_range(lo..hi)
}

/// Relies on `rand::rng` and `rand::Rng::random` for `bool`: one of the
/// two values; nothing can be promised about which.
#[verifier::external_body]
fn random_flip() -> (r: bool) {
    rand::rng().random()
}

/// Spawns a fresh projectile: a random column strictly inside the side
/// walls, a random horizontal direction, mid-height, moving away from the
/// paddle.
fn spawn_projectile(width: u16, height: u16, boundary: Boundary) -> (p: Projectile)
    requires
        width >= 3,
    ensures
        p.boundary == boundary,
        p.velocity.y == 1,
        p.velocity.x == 1 || p.velocity.x == -1,
        1 <= p.position.x <= width - 2,
        p.position.y == height as int / 2,
{
    let proj_x = random_in_range(1, (width - 1) as u32);
    let move_right = random_flip();
    let vx: i32 = if move_right {
        1
    } else {
        -1
    };
    Projectile::new(proj_x, (height / 2) as u32, vx, 1, boundary)
}

/// Every block lies strictly inside the side walls and on one of the
/// rows 4 through 9, and no two blocks coincide.
pub open spec fn game_blocks_ok(body: Seq<Point>, width: u16) -> bool {
    &&& blocks_distinct(body)
    &&& forall|i: int|
        0 <= i < body.len() ==> 1 <= (#[trigger] body[i]).x <= width - 1 && 4 <= body[i].y <= 9
}

/// The playing field, the three moving parts and the session counters.
/// All fields are readable by an external renderer as the per-tick
/// snapshot.
pub struct Game {
    pub width: u16,
    pub height: u16,
    pub boundary: Boundary,
    pub paddle: Paddle,
    pub projectile: Projectile,
    pub obstacle: Obstacle,
    pub score: u32,
    pub lives: u8,
    pub lvl: u8,
    pub status: Status,
}

impl Game {
    /// The session invariant: geometry fixed by `width`/`height`, the
    /// parts well formed against the one shared boundary, blocks inside
    /// the field, a running game having at least one life and one block,
    /// and the score bounded by ten points per block the session can ever
    /// hold.
    pub open spec fn wf(self) -> bool {
        &&& 14 <= self.width
        &&& 10 <= self.height
        &&& self.boundary == (Boundary {
            left: 0u32,
            right: self.width as u32,
            top: HAT_SIZE,
            bottom: (HAT_SIZE + self.height + 1) as u32,
        })
        &&& self.paddle.wf()
        &&& self.paddle.boundary == self.boundary
        &&& self.projectile.wf()
        &&& self.projectile.boundary == self.boundary
        &&& game_blocks_ok(self.obstacle.body@, self.width)
        &&& self.lvl == 1 || self.lvl == 2
        &&& self.status == Status::Running ==> {
            &&& self.lives >= 1
            &&& self.obstacle.body@.len() >= 1
            &&& self.projectile.position.y + 2 <= self.boundary.bottom
        }
        &&& self.score + 10 * self.obstacle.body@.len() <= 10 * (self.width as int / 2) + (
        if self.lvl == 2 {
            150int
        } else {
            0int
        })
    }

    /// Builds a fresh session: level 1, three lives, zero score, paddle
    /// centered, projectile spawned at mid-height, level-1 blocks laid
    /// out.
    pub fn new(width: u16, height: u16) -> (g: Game)
        requires
            14 <= width,
            10 <= height,
        ensures
            g.wf(),
            g.width == width,
            g.height == height,
            g.score == 0,
            g.lives == INITIAL_LIVES,
            g.lvl == 1,
            g.status == Status::Running,
            g.obstacle.body@ == lvl1_layout(width as int),
            g.paddle.body@.len() == PADDLE_LENGTH,
            g.paddle.body@[0] == width as int / 2 - 2,
            g.projectile.velocity.y == 1,
            g.projectile.position.y == height as int / 2,
            1 <= g.projectile.position.x <= width - 2,
    {
        let boundary = Boundary::new(0, width as u32, HAT_SIZE, HAT_SIZE + height as u32 + 1);
        let paddle = Paddle::new(PADDLE_LENGTH, boundary);
        let projectile = spawn_projectile(width, height, boundary);
        let obstacle = Obstacle::new(width, height, 1);
        proof {
            lemma_lvl1_layout_wf(width as int);
        }
        Game {
            width,
            height,
            boundary,
            paddle,
            projectile,
            obstacle,
            score: 0,
            lives: INITIAL_LIVES,
            lvl: 1,
            status: Status::Running,
        }
    }

    /// Applies one input command. A move shifts the paddle one cell
    /// (clamped to the boundary); quit only reports that the session
    /// should end. Nothing but the paddle ever changes, and a game no
    /// longer running ignores movement.
    pub fn apply_command(&mut self, command: Command) -> (quit: bool)
        requires
            old(self).wf(),
        ensures
            final(self).wf(),
            quit == (command == Command::Quit),
            final(self).score == old(self).score,
            final(self).lives == old(self).lives,
            final(self).lvl == old(self).lvl,
            final(self).status == old(self).status,
            final(self).projectile == old(self).projectile,
            final(self).obstacle == old(self).obstacle,
            final(self).width == old(self).width,
            final(self).height == old(self).height,
            final(self).boundary == old(self).boundary,
            match command {
                Command::Move(d) => {
                    if old(self).status == Status::Running {
                        final(self).paddle.body@ == spec_shift(
                            old(self).paddle.body@,
                            old(self).boundary,
                            d,
                        )
                    } else {
                        final(self).paddle == old(self).paddle
                    }
                },
                Command::Quit => final(self).paddle == old(self).paddle,
            },
    {
        match command {
            Command::Quit => true,
            Command::Move(direction) => {
                if self.status == Status::Running {
                    self.paddle.shift(direction);
                }
                false
            },
        }
    }

    /// One simulation tick while `Running`: fly the projectile (paddle
    /// bounce, at most one block destroyed), award 10 points per block,
    /// charge a lost projectile against the lives (game over on the last
    /// one, respawn otherwise), and resolve a cleared field (victory on
    /// the last level, next layout otherwise). A game in a terminal state
    /// changes nothing. Returns `(projectile_lost, block_destroyed)`.
    pub fn tick(&mut self) -> (r: (bool, bool))
        requires
            old(self).wf(),
        ensures
            final(self).wf(),
            final(self).width == old(self).width,
            final(self).height == old(self).height,
            final(self).boundary == old(self).boundary,
            final(self).paddle == old(self).paddle,
            final(self).score >= old(self).score,
            old(self).status != Status::Running ==> *final(self) == *old(self) && r == (false, false),
            old(self).status == Status::Running ==> ({
                let pre = *old(self);
                let post = *final(self);
                let f = spec_fly(
                    pre.boundary,
                    pre.projectile.position.x as int,
                    pre.projectile.position.y as int,
                    pre.projectile.velocity.x as int,
                    pre.projectile.velocity.y as int,
                    pre.paddle.body@,
                    pre.obstacle.body@,
                );
                let over = f.2 && pre.lives == 1;
                let cleared = f.3 && pre.obstacle.body@.len() == 1;
                let pp = spec_paddle_phase(
                    pre.boundary,
                    pre.projectile.position.x as int,
                    pre.projectile.position.y as int,
                    pre.projectile.velocity.x as int,
                    pre.projectile.velocity.y as int,
                    pre.paddle.body@,
                );
                let tx = pre.projectile.position.x + wall_vx(
                    pre.boundary,
                    pre.projectile.position.x as int,
                    pp.0,
                );
                let ty = pre.projectile.position.y + wall_vy(
                    pre.boundary,
                    pre.projectile.position.y as int,
                    pp.1,
                );
                &&& r.0 == f.2
                &&& r.1 == f.3
                &&& post.score == pre.score + if f.3 {
                    10int
                } else {
                    0int
                }
                &&& post.lives == pre.lives - if f.2 {
                    1int
                } else {
                    0int
                }
                &&& (post.status == Status::GameOver <==> over)
                &&& (post.status == Status::Victory <==> !over && cleared && pre.lvl == LAST_LVL)
                &&& (!over && cleared && pre.lvl < LAST_LVL ==> post.lvl == pre.lvl + 1
                    && post.obstacle.body@ == lvl2_layout(pre.width as int / 2))
                &&& (!(!over && cleared && pre.lvl < LAST_LVL) ==> post.lvl == pre.lvl
                    && post.obstacle.body@.len() == pre.obstacle.body@.len() - (if f.3 {
                    1int
                } else {
                    0int
                }))
                &&& (!f.3 ==> post.obstacle.body@ == pre.obstacle.body@)
                &&& (f.3 && !(!over && cleared && pre.lvl < LAST_LVL) ==> exists|i: int|
                    0 <= i < pre.obstacle.body@.len() && pre.obstacle.body@[i].x == tx
                        && pre.obstacle.body@[i].y == ty && (forall|j: int|
                        0 <= j < i ==> !(pre.obstacle.body@[j].x == tx && pre.obstacle.body@[j].y
                            == ty)) && post.obstacle.body@ == pre.obstacle.body@.remove(i))
                &&& (!(f.2 && !over) ==> post.projectile.position.x as int
                    == pre.projectile.position.x + f.0 && post.projectile.position.y as int
                    == pre.projectile.position.y + f.1 && post.projectile.velocity.x as int == f.0
                    && post.projectile.velocity.y as int == f.1)
                &&& (f.2 && !over ==> post.projectile.velocity.y == 1
                    && post.projectile.position.y == pre.height as int / 2
                    && 1 <= post.projectile.position.x <= pre.width - 2)
            }),
    {
        if self.status != Status::Running {
            return (false, false);
        }
        let ghost oldproj = self.projectile;
        let ghost oldobs = self.obstacle.body@;
        proof {
            assert(blocks_in_rows(oldobs, self.boundary));
            lemma_fly_keeps_clear_of_bottom(
                self.boundary,
                oldproj.position.x as int,
                oldproj.position.y as int,
                oldproj.velocity.x as int,
                oldproj.velocity.y as int,
                self.paddle.body@,
                oldobs,
            );
        }
        let (projectile_lost, block_destroyed) = self.projectile.fly_projectile(
            &self.paddle,
            &mut self.obstacle,
        );
        if block_destroyed {
            self.score = self.score + 10;
        }
        if projectile_lost {
            self.lives = self.lives - 1;
            if self.lives == 0 {
                self.status = Status::GameOver;
                return (projectile_lost, block_destroyed);
            }
            self.projectile = spawn_projectile(self.width, self.height, self.boundary);
        }
        if self.obstacle.body.len() == 0 {
            if self.lvl == LAST_LVL {
                self.status = Status::Victory;
            } else {
                self.lvl = self.lvl + 1;
                self.obstacle = Obstacle::new(self.width, self.height, self.lvl);
                proof {
                    lemma_lvl2_layout_wf(self.width as int / 2);
                }
            }
        }
        (projectile_lost, block_destroyed)
    }
}

} // verus!
