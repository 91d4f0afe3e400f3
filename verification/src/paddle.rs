//! The player-controlled paddle: a contiguous horizontal run of cells,
//! clamped to the boundary.

use vstd::prelude::*;
use crate::boundary::Boundary;
use crate::direction::Direction;

verus! {

/// A paddle body is well formed with respect to a boundary when it is a
/// non-empty run of consecutive x-coordinates lying inside
/// `[boundary.left, boundary.right]`.
pub open spec fn paddle_body_wf(body: Seq<u32>, b: Boundary) -> bool {
    &&& b.wf()
    &&& body.len() >= 1
    &&& forall|i: int| 0 <= i < body.len() ==> #[trigger] body[i] == body[0] + i
    &&& body[0] >= b.left
    &&& body[0] + body.len() - 1 <= b.right
}

/// Whether a one-cell shift in `d` keeps the paddle inside the boundary.
/// A shift that would leave the boundary is a silent no-op (a clamp).
pub open spec fn shift_moves(body: Seq<u32>, b: Boundary, d: Direction) -> bool {
    match d {
        Direction::Left => body[0] >= b.left + 1,
        Direction::Right => body[body.len() - 1] + 1 <= b.right,
    }
}

/// The body after a one-cell shift in `d` (ignoring the clamp).
pub open spec fn shifted_body(body: Seq<u32>, d: Direction) -> Seq<u32> {
    match d {
        Direction::Left => body.map_values(|x: u32| (x - 1) as u32),
        Direction::Right => body.map_values(|x: u32| (x + 1) as u32),
    }
}

/// What one `shift(d)` call does to the body: move one cell if that keeps
/// the paddle inside the boundary, otherwise leave it unchanged.
pub open spec fn spec_shift(body: Seq<u32>, b: Boundary, d: Direction) -> Seq<u32> {
    if shift_moves(body, b, d) {
        shifted_body(body, d)
    } else {
        body
    }
}

/// Every paddle cell stays within `[b.left, b.right]` under any single
/// shift, hence (by induction over the calls) under every sequence of
/// shifts.
pub proof fn lemma_shift_stays_in_bounds(body: Seq<u32>, b: Boundary, d: Direction)
    requires
        paddle_body_wf(body, b),
    ensures
        paddle_body_wf(spec_shift(body, b, d), b),
        forall|i: int|
            0 <= i < spec_shift(body, b, d).len() ==> b.left <= #[trigger] spec_shift(
                body,
                b,
                d,
            )[i] <= b.right,
{
    let s = spec_shift(body, b, d);
    assert(s.len() == body.len());
    assert forall|i: int| 0 <= i < s.len() implies #[trigger] s[i] == s[0] + i by {
        assert(body[i] == body[0] + i);
    }
    assert forall|i: int| 0 <= i < s.len() implies b.left <= #[trigger] s[i] <= b.right by {
        assert(s[i] == s[0] + i);
        assert(s[0] + s.len() - 1 <= b.right);
    }
}

/// Shifting against an edge already reached is idempotent: the clamp
/// leaves the body exactly as it was.
pub proof fn lemma_shift_clamp_idempotent(body: Seq<u32>, b: Boundary, d: Direction)
    requires
        paddle_body_wf(body, b),
        d == Direction::Left ==> body[0] == b.left,
        d == Direction::Right ==> body[body.len() - 1] == b.right,
    ensures
        spec_shift(body, b, d) == body,
{
}

/// The player-controlled contiguous horizontal segment. `body` holds the
/// occupied x-coordinates in increasing order; the paddle sits on the row
/// `boundary.bottom - 1`.
pub struct Paddle {
    pub body: Vec<u32>,
    pub body_length: usize,
    pub boundary: Boundary,
}

impl Paddle {
    /// Invariant: the body is `body_length` consecutive cells inside the
    /// boundary.
    pub open spec fn wf(self) -> bool {
        &&& paddle_body_wf(self.body@, self.boundary)
        &&& self.body@.len() == self.body_length
    }

    /// Builds a paddle of odd length `body_length` centered on the
    /// boundary's horizontal midpoint.
    pub fn new(body_length: usize, boundary: Boundary) -> (p: Self)
        requires
            boundary.wf(),
            body_length % 2 == 1,
            boundary.left + body_length - 1 <= boundary.right,
            boundary.left + boundary.right <= u32::MAX,
        ensures
            p.wf(),
            p.boundary == boundary,
            p.body_length == body_length,
            p.body@.len() == body_length,
            p.body@[0] == (boundary.left + boundary.right) / 2 - body_length / 2,
    {
        let mid = (boundary.left + boundary.right) / 2;
        let half: u32 = (body_length / 2) as u32;
        let first = mid - half;
        let mut body: Vec<u32> = Vec::new();
        let mut k: usize = 0;
        while k < body_length
            invariant
                k <= body_length,
                body@.len() == k,
                first == (boundary.left + boundary.right) / 2 - body_length / 2,
                boundary.left + body_length - 1 <= boundary.right,
                boundary.wf(),
                first >= boundary.left,
                first + body_length - 1 <= boundary.right,
                forall|i: int| 0 <= i < k ==> body@[i] == first + i,
            decreases body_length - k,
        {
            body.push(first + (k as u32));
            k = k + 1;
        }
        Self { body, body_length, boundary }
    }

    /// One-cell movement helper: moves the whole body by `step` (+1 or
    /// -1) unless the move would push the paddle outside the boundary, in
    /// which case nothing changes.
    fn move_within_boundaries(&mut self, step: i32)
        requires
            old(self).wf(),
            step == 1 || step == -1,
        ensures
            final(self).wf(),
            final(self).boundary == old(self).boundary,
            final(self).body_length == old(self).body_length,
            final(self).body@ == spec_shift(
                old(self).body@,
                old(self).boundary,
                if step == 1 {
                    Direction::Right
                } else {
                    Direction::Left
                },
            ),
    {
        let ghost d = if step == 1 { Direction::Right } else { Direction::Left };
        let n = self.body.len();
        let movable = if step == 1 {
            self.body[n - 1] + 1 <= self.boundary.right
        } else {
            self.body[0] >= self.boundary.left + 1
        };
        if movable {
            let mut shifted: Vec<u32> = Vec::new();
            let mut k: usize = 0;
            while k < n
                invariant
                    k <= n,
                    n == self.body@.len(),
                    self.wf(),
                    step == 1 || step == -1,
                    shifted@.len() == k,
                    step == 1 ==> self.body@[n - 1] + 1 <= self.boundary.right,
                    step == -1 ==> self.body@[0] >= self.boundary.left + 1,
                    forall|i: int|
                        0 <= i < k ==> shifted@[i] == if step == 1 {
                            (self.body@[i] + 1) as u32
                        } else {
                            (self.body@[i] - 1) as u32
                        },
                decreases n - k,
            {
                proof {
                    assert(self.body@[k as int] == self.body@[0] + k);
                    assert(self.body@[n - 1] == self.body@[0] + n - 1);
                }
                let cell = if step == 1 {
                    self.body[k] + 1
                } else {
                    self.body[k] - 1
                };
                shifted.push(cell);
                k = k + 1;
            }
            proof {
                assert(shifted@ =~= shifted_body(self.body@, d));
                lemma_shift_stays_in_bounds(self.body@, self.boundary, d);
            }
            self.body = shifted;
        } else {
            proof {
                assert(self.body@ == spec_shift(self.body@, self.boundary, d));
            }
        }
    }

    /// Moves the paddle one cell in `direction`, clamped to the boundary:
    /// a move that would leave `[boundary.left, boundary.right]` is a
    /// silent no-op.
    pub fn shift(&mut self, direction: Direction)
        requires
            old(self).wf(),
        ensures
            final(self).wf(),
            final(self).boundary == old(self).boundary,
            final(self).body_length == old(self).body_length,
            final(self).body@ == spec_shift(old(self).body@, old(self).boundary, direction),
    {
        match direction {
            Direction::Left => self.move_within_boundaries(-1),
            Direction::Right => self.move_within_boundaries(1),
        }
    }
}

} // verus!
