//! The moving projectile and its collision physics.
//!
//! One tick advances the projectile by exactly one cell on each axis. The
//! fixed order of checks — wall reflection, then paddle, then obstacle,
//! then commit — is part of the game's observable behaviour and is pinned
//! down by the spec functions below.

use vstd::prelude::*;
use crate::boundary::Boundary;
use crate::obstacle::{
    blocks_distinct,
    blocks_subset,
    covers_cell,
    lemma_destroy_removes_exactly_one,
    Obstacle,
};
use crate::paddle::Paddle;

verus! {

/// One grid cell.
#[derive(Clone, Copy, Debug, PartialEq, Eq, Structural)]
pub struct Point {
    pub x: u32,
    pub y: u32,
}

impl Point {
    pub fn new(x: u32, y: u32) -> (p: Self)
        ensures
            p == (Point { x, y }),
    {
        Self { x, y }
    }
}

/// Per-axis velocity; each component is always exactly +1 or -1.
#[derive(Clone, Copy, Debug, PartialEq, Eq, Structural)]
pub struct Velocity {
    pub x: i32,
    pub y: i32,
}

impl Velocity {
    pub open spec fn unit(self) -> bool {
        &&& (self.x == 1 || self.x == -1)
        &&& (self.y == 1 || self.y == -1)
    }

    pub fn new(x: i32, y: i32) -> (v: Self)
        ensures
            v == (Velocity { x, y }),
    {
        Self { x, y }
    }
}

/// Whether some paddle cell occupies column `x`.
pub open spec fn paddle_covers(body: Seq<u32>, x: int) -> bool {
    exists|i: int| 0 <= i < body.len() && body[i] == x
}

/// Horizontal velocity after the wall check: if the tentative next column
/// crosses the left or right boundary, the sign flips.
pub open spec fn wall_vx(b: Boundary, x: int, vx: int) -> int {
    if x + vx <= b.left || x + vx >= b.right {
        -vx
    } else {
        vx
    }
}

/// Vertical velocity after the wall check: if the tentative next row
/// crosses the top boundary, the sign flips. There is no bottom wall; the
/// paddle row is the last defence.
pub open spec fn wall_vy(b: Boundary, y: int, vy: int) -> int {
    if y + vy <= b.top {
        -vy
    } else {
        vy
    }
}

/// Velocity and loss flag after the paddle check: wall-reflect first,
/// then, exactly when the tentative row is the paddle row
/// `b.bottom - 1`, either bounce (tentative column on the paddle) or
/// report the projectile lost (velocity unchanged). Returns
/// `(vx, vy, projectile_lost)`.
pub open spec fn spec_paddle_phase(
    b: Boundary,
    x: int,
    y: int,
    vx: int,
    vy: int,
    pbody: Seq<u32>,
) -> (int, int, bool) {
    let wvx = wall_vx(b, x, vx);
    let wvy = wall_vy(b, y, vy);
    if y + wvy == b.bottom - 1 {
        if paddle_covers(pbody, x + wvx) {
            (wvx, -wvy, false)
        } else {
            (wvx, wvy, true)
        }
    } else {
        (wvx, wvy, false)
    }
}

/// Velocity and destruction flag after the obstacle check: wall-reflect
/// (again) from the incoming velocity, then bounce exactly when the
/// tentative cell holds a block. Returns `(vx, vy, block_destroyed)`.
pub open spec fn spec_obstacle_phase(
    b: Boundary,
    x: int,
    y: int,
    vx: int,
    vy: int,
    obody: Seq<Point>,
) -> (int, int, bool) {
    let wvx = wall_vx(b, x, vx);
    let wvy = wall_vy(b, y, vy);
    if covers_cell(obody, x + wvx, y + wvy) {
        (wvx, -wvy, true)
    } else {
        (wvx, wvy, false)
    }
}

/// One whole tick of projectile physics, as a function of the old state:
/// paddle phase, then obstacle phase. Returns the committed velocity and
/// the two flags, `(vx, vy, projectile_lost, block_destroyed)`; the new
/// position is the old one plus that velocity.
pub open spec fn spec_fly(
    b: Boundary,
    x: int,
    y: int,
    vx: int,
    vy: int,
    pbody: Seq<u32>,
    obody: Seq<Point>,
) -> (int, int, bool, bool) {
    let p = spec_paddle_phase(b, x, y, vx, vy, pbody);
    let o = spec_obstacle_phase(b, x, y, p.0, p.1, obody);
    (o.0, o.1, p.2, o.2)
}

/// No block sits on the top margin rows; a block right under the top wall
/// could bounce the projectile out of the rectangle.
pub open spec fn blocks_clear_of_top(obody: Seq<Point>, b: Boundary) -> bool {
    forall|i: int| 0 <= i < obody.len() ==> #[trigger] obody[i].y > b.top + 1
}

/// For every tick from a well-formed state, the committed position stays
/// within `[b.left, b.right] x [b.top, b.bottom]` and the velocity stays
/// a unit vector.
pub proof fn lemma_fly_stays_in_bounds(
    b: Boundary,
    x: int,
    y: int,
    vx: int,
    vy: int,
    pbody: Seq<u32>,
    obody: Seq<Point>,
)
    requires
        b.roomy(),
        vx == 1 || vx == -1,
        vy == 1 || vy == -1,
        b.left <= x <= b.right,
        b.top <= y <= b.bottom - 1,
        blocks_clear_of_top(obody, b),
    ensures
        ({
            let f = spec_fly(b, x, y, vx, vy, pbody, obody);
            &&& (f.0 == 1 || f.0 == -1)
            &&& (f.1 == 1 || f.1 == -1)
            &&& b.left <= x + f.0 <= b.right
            &&& b.top <= y + f.1 <= b.bottom
        }),
{
    let p = spec_paddle_phase(b, x, y, vx, vy, pbody);
    let f = spec_fly(b, x, y, vx, vy, pbody, obody);
    if y == b.top && f.1 == -1 {
        // Only a block at row `top + 1` could turn the velocity downward
        // while the projectile sits on the top row, and no block is there.
        assert(wall_vy(b, y, vy) == 1);
        assert(wall_vy(b, y, p.1) == 1);
        assert(covers_cell(obody, x + wall_vx(b, x, p.0), y + 1));
        let i = choose|i: int|
            0 <= i < obody.len() && obody[i].x == x + wall_vx(b, x, p.0) && obody[i].y == y + 1;
        assert(obody[i].y > b.top + 1);
    }
}

/// No block sits on the bottom margin rows: every block lies between the
/// top margin and four rows above the bottom wall.
pub open spec fn blocks_in_rows(obody: Seq<Point>, b: Boundary) -> bool {
    forall|i: int| 0 <= i < obody.len() ==> b.top + 2 <= (#[trigger] obody[i]).y <= b.bottom - 4
}

/// As long as the paddle keeps deflecting the projectile (`!lost`), the
/// committed row stays at least two rows above the bottom wall, so the
/// next tick can evaluate the paddle row again.
pub proof fn lemma_fly_keeps_clear_of_bottom(
    b: Boundary,
    x: int,
    y: int,
    vx: int,
    vy: int,
    pbody: Seq<u32>,
    obody: Seq<Point>,
)
    requires
        b.roomy(),
        b.top + 5 <= b.bottom,
        vx == 1 || vx == -1,
        vy == 1 || vy == -1,
        b.left <= x <= b.right,
        b.top <= y <= b.bottom - 2,
        blocks_in_rows(obody, b),
    ensures
        ({
            let f = spec_fly(b, x, y, vx, vy, pbody, obody);
            !f.2 ==> b.top <= y + f.1 <= b.bottom - 2
        }),
{
    assert(blocks_clear_of_top(obody, b));
    lemma_fly_stays_in_bounds(b, x, y, vx, vy, pbody, obody);
    let p = spec_paddle_phase(b, x, y, vx, vy, pbody);
    let f = spec_fly(b, x, y, vx, vy, pbody, obody);
    if !f.2 && y + f.1 > b.bottom - 2 {
        // Only possible with y on row bottom - 2 and a final downward
        // velocity; but from that row the paddle either bounces the
        // projectile (upward velocity) or reports it lost, and no block
        // sits low enough to flip it downward again.
        assert(y == b.bottom - 2 && f.1 == 1);
        assert(wall_vy(b, y, vy) == vy);
        assert(p.1 == -1);
        assert(wall_vy(b, y, p.1) == -1);
        let tx = x + wall_vx(b, x, p.0);
        if covers_cell(obody, tx, y - 1) {
            let i = choose|i: int| 0 <= i < obody.len() && obody[i].x == tx && obody[i].y == y - 1;
            assert(obody[i].y <= b.bottom - 4);
            assert(false);
        }
        assert(f.1 == -1);
    }
}

/// The single moving ball: a position on the grid, a unit velocity and
/// the boundary it reflects against.
pub struct Projectile {
    pub position: Point,
    pub velocity: Velocity,
    pub boundary: Boundary,
}

impl Projectile {
    /// Invariant: roomy boundary, unit velocity, position inside the
    /// boundary rectangle.
    pub open spec fn wf(self) -> bool {
        &&& self.boundary.roomy()
        &&& self.velocity.unit()
        &&& self.boundary.left <= self.position.x <= self.boundary.right
        &&& self.boundary.top <= self.position.y <= self.boundary.bottom
    }

    pub fn new(x: u32, y: u32, vx: i32, vy: i32, boundary: Boundary) -> (p: Self)
        ensures
            p.position == (Point { x, y }),
            p.velocity == (Velocity { x: vx, y: vy }),
            p.boundary == boundary,
    {
        Self { position: Point::new(x, y), velocity: Velocity::new(vx, vy), boundary }
    }

    /// Wall reflection: flips the vertical velocity when the tentative
    /// next row crosses the top boundary, and the horizontal velocity
    /// when the tentative next column crosses the left or right boundary.
    /// The position does not change here.
    fn check_wall_collision(&mut self)
        requires
            old(self).wf(),
        ensures
            final(self).position == old(self).position,
            final(self).boundary == old(self).boundary,
            final(self).velocity.x as int == wall_vx(
                old(self).boundary,
                old(self).position.x as int,
                old(self).velocity.x as int,
            ),
            final(self).velocity.y as int == wall_vy(
                old(self).boundary,
                old(self).position.y as int,
                old(self).velocity.y as int,
            ),
            final(self).wf(),
    {
        let hits_top = if self.velocity.y >= 0 {
            self.position.y + 1 <= self.boundary.top
        } else {
            self.position.y <= self.boundary.top + 1
        };
        let hits_left = if self.velocity.x >= 0 {
            self.position.x + 1 <= self.boundary.left
        } else {
            self.position.x <= self.boundary.left + 1
        };
        let hits_right = if self.velocity.x >= 0 {
            self.position.x + 1 >= self.boundary.right
        } else {
            self.position.x >= self.boundary.right + 1
        };

        if hits_top {
            self.velocity.y = -self.velocity.y;
        }
        if hits_left || hits_right {
            self.velocity.x = -self.velocity.x;
        }
    }

    /// Wall-reflects, then returns the tentative next cell computed with
    /// the corrected velocity.
    fn predict_future_position(&mut self) -> (r: (u32, u32))
        requires
            old(self).wf(),
        ensures
            final(self).position == old(self).position,
            final(self).boundary == old(self).boundary,
            final(self).velocity.x as int == wall_vx(
                old(self).boundary,
                old(self).position.x as int,
                old(self).velocity.x as int,
            ),
            final(self).velocity.y as int == wall_vy(
                old(self).boundary,
                old(self).position.y as int,
                old(self).velocity.y as int,
            ),
            r.0 as int == old(self).position.x + final(self).velocity.x,
            r.1 as int == old(self).position.y + final(self).velocity.y,
            final(self).wf(),
    {
        self.check_wall_collision();
        let new_x = if self.velocity.x >= 0 {
            self.position.x + 1
        } else {
            self.position.x - 1
        };
        let new_y = if self.velocity.y >= 0 {
            self.position.y + 1
        } else {
            self.position.y - 1
        };
        (new_x, new_y)
    }

    /// Commits the move: position becomes position + velocity.
    fn assign_new_position(&mut self)
        requires
            old(self).velocity.unit(),
            old(self).velocity.x == -1 ==> old(self).position.x >= 1,
            old(self).velocity.x == 1 ==> old(self).position.x < u32::MAX,
            old(self).velocity.y == -1 ==> old(self).position.y >= 1,
            old(self).velocity.y == 1 ==> old(self).position.y < u32::MAX,
        ensures
            final(self).position.x as int == old(self).position.x + old(self).velocity.x,
            final(self).position.y as int == old(self).position.y + old(self).velocity.y,
            final(self).velocity == old(self).velocity,
            final(self).boundary == old(self).boundary,
    {
        self.position.x = if self.velocity.x >= 0 {
            self.position.x + 1
        } else {
            self.position.x - 1
        };
        self.position.y = if self.velocity.y >= 0 {
            self.position.y + 1
        } else {
            self.position.y - 1
        };
    }

    /// Paddle check: evaluated only when the tentative row (after wall
    /// reflection) is the paddle row `boundary.bottom - 1`. A tentative
    /// column on the paddle bounces the projectile; otherwise the
    /// projectile is reported lost and the velocity is left unchanged.
    fn check_paddle_collision(&mut self, paddle: &Paddle) -> (lost: bool)
        requires
            old(self).wf(),
        ensures
            ({
                let p = spec_paddle_phase(
                    old(self).boundary,
                    old(self).position.x as int,
                    old(self).position.y as int,
                    old(self).velocity.x as int,
                    old(self).velocity.y as int,
                    paddle.body@,
                );
                &&& final(self).position == old(self).position
                &&& final(self).boundary == old(self).boundary
                &&& final(self).velocity.x as int == p.0
                &&& final(self).velocity.y as int == p.1
                &&& lost == p.2
                &&& final(self).wf()
            }),
    {
        let (proj_x, proj_y) = self.predict_future_position();
        let mut projectile_lost = false;

        if proj_y == self.boundary.bottom - 1 {
            let mut collided_with_paddle = false;
            let n = paddle.body.len();
            let mut k: usize = 0;
            while k < n
                invariant
                    k <= n,
                    n == paddle.body@.len(),
                    collided_with_paddle ==> paddle_covers(paddle.body@, proj_x as int),
                    !collided_with_paddle ==> forall|j: int|
                        0 <= j < k ==> paddle.body@[j] != proj_x,
                decreases n - k,
            {
                if proj_x == paddle.body[k] {
                    collided_with_paddle = true;
                }
                k = k + 1;
            }

            if collided_with_paddle {
                self.velocity.y = -self.velocity.y;
            } else {
                projectile_lost = true;
            }
        }

        projectile_lost
    }

    /// Obstacle check: wall-reflects (again), and if the tentative cell
    /// holds a block, removes exactly the first matching block from the
    /// obstacle and bounces the projectile vertically.
    fn check_obstacle_collision(&mut self, obstacle: &mut Obstacle) -> (destroyed: bool)
        requires
            old(self).wf(),
        ensures
            ({
                let o = spec_obstacle_phase(
                    old(self).boundary,
                    old(self).position.x as int,
                    old(self).position.y as int,
                    old(self).velocity.x as int,
                    old(self).velocity.y as int,
                    old(obstacle).body@,
                );
                let tx = old(self).position.x + wall_vx(
                    old(self).boundary,
                    old(self).position.x as int,
                    old(self).velocity.x as int,
                );
                let ty = old(self).position.y + wall_vy(
                    old(self).boundary,
                    old(self).position.y as int,
                    old(self).velocity.y as int,
                );
                &&& final(self).position == old(self).position
                &&& final(self).boundary == old(self).boundary
                &&& final(self).velocity.x as int == o.0
                &&& final(self).velocity.y as int == o.1
                &&& destroyed == o.2
                &&& final(self).wf()
                &&& destroyed ==> exists|i: int|
                    0 <= i < old(obstacle).body@.len() && old(obstacle).body@[i].x == tx && old(
                        obstacle,
                    ).body@[i].y == ty && (forall|j: int|
                        0 <= j < i ==> !(old(obstacle).body@[j].x == tx && old(obstacle).body@[j].y
                            == ty)) && final(obstacle).body@ == old(obstacle).body@.remove(i)
                &&& !destroyed ==> final(obstacle).body@ == old(obstacle).body@
                &&& destroyed ==> final(obstacle).body@.len() == old(obstacle).body@.len() - 1
                &&& blocks_subset(final(obstacle).body@, old(obstacle).body@)
                &&& blocks_distinct(old(obstacle).body@) ==> blocks_distinct(
                    final(obstacle).body@,
                )
            }),
    {
        let (proj_x, proj_y) = self.predict_future_position();

        let n = obstacle.body.len();
        let mut hit: usize = n;
        let mut k: usize = 0;
        while k < n
            invariant
                k <= n,
                hit <= n,
                n == obstacle.body@.len(),
                hit == n ==> forall|j: int|
                    0 <= j < k ==> !(obstacle.body@[j].x == proj_x && obstacle.body@[j].y
                        == proj_y),
                hit < n ==> hit < k && obstacle.body@[hit as int].x == proj_x
                    && obstacle.body@[hit as int].y == proj_y && forall|j: int|
                    0 <= j < hit ==> !(obstacle.body@[j].x == proj_x && obstacle.body@[j].y
                        == proj_y),
            decreases n - k,
        {
            if hit == n && obstacle.body[k].x == proj_x && obstacle.body[k].y == proj_y {
                hit = k;
            }
            k = k + 1;
        }

        if hit < n {
            let ghost oldbody = obstacle.body@;
            obstacle.body.remove(hit);
            self.velocity.y = -self.velocity.y;
            proof {
                assert(covers_cell(oldbody, proj_x as int, proj_y as int)) by {
                    assert(oldbody[hit as int].x == proj_x && oldbody[hit as int].y == proj_y);
                }
                assert(obstacle.body@ == oldbody.remove(hit as int));
                assert forall|j: int| 0 <= j < obstacle.body@.len() implies oldbody.contains(
                    #[trigger] obstacle.body@[j],
                ) by {
                    if j < hit {
                        assert(oldbody[j] == obstacle.body@[j]);
                    } else {
                        assert(oldbody[j + 1] == obstacle.body@[j]);
                    }
                }
                if blocks_distinct(oldbody) {
                    lemma_destroy_removes_exactly_one(oldbody, hit as int);
                }
            }
            true
        } else {
            proof {
                assert forall|i: int|
                    0 <= i < obstacle.body@.len() implies !(#[trigger] obstacle.body@[i].x
                    == proj_x && obstacle.body@[i].y == proj_y) by {}
                assert(!covers_cell(obstacle.body@, proj_x as int, proj_y as int));
                assert forall|j: int| 0 <= j < obstacle.body@.len() implies obstacle.body@.contains(
                    #[trigger] obstacle.body@[j],
                ) by {
                    assert(obstacle.body@[j] == obstacle.body@[j]);
                }
            }
            false
        }
    }

    /// One tick of physics in the fixed order: wall-reflect and check the
    /// paddle, wall-reflect and check the obstacle (destroying at most
    /// one block), then commit the move with the final velocity. Returns
    /// `(projectile_lost, block_destroyed)`.
    pub fn fly_projectile(&mut self, paddle: &Paddle, obstacle: &mut Obstacle) -> (r: (bool, bool))
        requires
            old(self).wf(),
            old(self).position.y + 1 <= old(self).boundary.bottom,
            blocks_clear_of_top(old(obstacle).body@, old(self).boundary),
        ensures
            ({
                let f = spec_fly(
                    old(self).boundary,
                    old(self).position.x as int,
                    old(self).position.y as int,
                    old(self).velocity.x as int,
                    old(self).velocity.y as int,
                    paddle.body@,
                    old(obstacle).body@,
                );
                let p = spec_paddle_phase(
                    old(self).boundary,
                    old(self).position.x as int,
                    old(self).position.y as int,
                    old(self).velocity.x as int,
                    old(self).velocity.y as int,
                    paddle.body@,
                );
                let tx = old(self).position.x + wall_vx(
                    old(self).boundary,
                    old(self).position.x as int,
                    p.0,
                );
                let ty = old(self).position.y + wall_vy(
                    old(self).boundary,
                    old(self).position.y as int,
                    p.1,
                );
                &&& r.0 == f.2
                &&& r.1 == f.3
                &&& final(self).boundary == old(self).boundary
                &&& final(self).velocity.x as int == f.0
                &&& final(self).velocity.y as int == f.1
                &&& final(self).position.x as int == old(self).position.x + f.0
                &&& final(self).position.y as int == old(self).position.y + f.1
                &&& final(self).wf()
                &&& r.1 ==> exists|i: int|
                    0 <= i < old(obstacle).body@.len() && old(obstacle).body@[i].x == tx && old(
                        obstacle,
                    ).body@[i].y == ty && (forall|j: int|
                        0 <= j < i ==> !(old(obstacle).body@[j].x == tx && old(obstacle).body@[j].y
                            == ty)) && final(obstacle).body@ == old(obstacle).body@.remove(i)
                &&& !r.1 ==> final(obstacle).body@ == old(obstacle).body@
                &&& r.1 ==> final(obstacle).body@.len() == old(obstacle).body@.len() - 1
                &&& blocks_subset(final(obstacle).body@, old(obstacle).body@)
                &&& blocks_distinct(old(obstacle).body@) ==> blocks_distinct(
                    final(obstacle).body@,
                )
            }),
    {
        proof {
            lemma_fly_stays_in_bounds(
                self.boundary,
                self.position.x as int,
                self.position.y as int,
                self.velocity.x as int,
                self.velocity.y as int,
                paddle.body@,
                obstacle.body@,
            );
        }
        let projectile_lost = self.check_paddle_collision(paddle);
        let block_destroyed = self.check_obstacle_collision(obstacle);
        self.assign_new_position();

        (projectile_lost, block_destroyed)
    }
}

} // verus!
