//! The destructible block field, generated per level.

use vstd::prelude::*;
use vstd::seq_lib::to_multiset_remove;
use crate::projectile::Point;

verus! {

/// Whether some block of `body` occupies the grid cell `(x, y)`.
pub open spec fn covers_cell(body: Seq<Point>, x: int, y: int) -> bool {
    exists|i: int| 0 <= i < body.len() && body[i].x == x && body[i].y == y
}

/// Every block of `sub` is a block of `sup`.
pub open spec fn blocks_subset(sub: Seq<Point>, sup: Seq<Point>) -> bool {
    forall|j: int| 0 <= j < sub.len() ==> sup.contains(#[trigger] sub[j])
}

/// No two blocks share a cell.
pub open spec fn blocks_distinct(body: Seq<Point>) -> bool {
    forall|i: int, j: int|
        0 <= i < j < body.len() ==> !(#[trigger] body[i] == #[trigger] body[j])
}

/// The level-1 layout: one row of blocks at y = 4, at every other column
/// from x = 1 up to (but not including) the right margin `width`.
pub open spec fn lvl1_layout(width: int) -> Seq<Point> {
    Seq::new((width / 2) as nat, |k: int| Point { x: (1 + 2 * k) as u32, y: 4 })
}

/// One block of the level-2 pyramid: three centered rows of 7, 5 and 3
/// blocks with half-widths 6, 4 and 2, on rows y = 5, 7 and 9, each row's
/// blocks at step-2 column intervals around the midpoint `mid`.
pub open spec fn lvl2_block(mid: int, k: int) -> Point {
    if k < 7 {
        Point { x: (mid - 6 + 2 * k) as u32, y: 5 }
    } else if k < 12 {
        Point { x: (mid - 4 + 2 * (k - 7)) as u32, y: 7 }
    } else {
        Point { x: (mid - 2 + 2 * (k - 12)) as u32, y: 9 }
    }
}

/// The level-2 layout: the 15 blocks of the narrowing pyramid.
pub open spec fn lvl2_layout(mid: int) -> Seq<Point> {
    Seq::new(15, |k: int| lvl2_block(mid, k))
}

/// Level-1 blocks are pairwise distinct, sit on row 4 and stay within
/// columns `[1, width - 1]`.
pub proof fn lemma_lvl1_layout_wf(width: int)
    requires
        2 <= width <= u16::MAX,
    ensures
        blocks_distinct(lvl1_layout(width)),
        forall|k: int|
            0 <= k < lvl1_layout(width).len() ==> 1 <= (#[trigger] lvl1_layout(width)[k]).x
                <= width - 1 && lvl1_layout(width)[k].y == 4,
{
    assert forall|k: int|
        0 <= k < lvl1_layout(width).len() implies 1 <= (#[trigger] lvl1_layout(width)[k]).x
        <= width - 1 && lvl1_layout(width)[k].y == 4 by {
        assert(2 * k < width);
    }
}

/// Level-2 blocks are pairwise distinct, sit on rows 5, 7 and 9 and stay
/// within columns `[mid - 6, mid + 6]`.
pub proof fn lemma_lvl2_layout_wf(mid: int)
    requires
        6 <= mid <= u16::MAX / 2,
    ensures
        blocks_distinct(lvl2_layout(mid)),
        forall|k: int|
            0 <= k < lvl2_layout(mid).len() ==> mid - 6 <= (#[trigger] lvl2_layout(mid)[k]).x
                <= mid + 6 && (lvl2_layout(mid)[k].y == 5 || lvl2_layout(mid)[k].y == 7
                || lvl2_layout(mid)[k].y == 9),
{
}

/// Destroying a block removes exactly one matching point from the set:
/// the count of the destroyed point drops by exactly one, the size by
/// exactly one, and — the blocks being pairwise distinct — the destroyed
/// cell is no longer covered, so the same block can never be removed
/// twice.
pub proof fn lemma_destroy_removes_exactly_one(body: Seq<Point>, i: int)
    requires
        blocks_distinct(body),
        0 <= i < body.len(),
    ensures
        body.remove(i).len() == body.len() - 1,
        body.remove(i).to_multiset() == body.to_multiset().remove(body[i]),
        !covers_cell(body.remove(i), body[i].x as int, body[i].y as int),
        blocks_distinct(body.remove(i)),
{
    to_multiset_remove(body, i);
    let rest = body.remove(i);
    assert forall|j: int| 0 <= j < rest.len() implies !(#[trigger] rest[j].x == body[i].x
        && rest[j].y == body[i].y) by {
        if j < i {
            assert(rest[j] == body[j]);
        } else {
            assert(rest[j] == body[j + 1]);
        }
    }
}

/// The destructible block set of the current level. Each `Point` is one
/// remaining block; the set only shrinks during a level and is replaced
/// wholesale on a level transition.
pub struct Obstacle {
    pub body: Vec<Point>,
}

impl Obstacle {
    /// Generates the destructible block layout for `lvl` deterministically
    /// from the playfield width. Any level other than 1 or 2 is a fatal
    /// configuration error and is excluded by the precondition.
    pub fn new(width: u16, height: u16, lvl: u8) -> (o: Self)
        requires
            lvl == 1 || lvl == 2,
            lvl == 2 ==> width >= 12,
        ensures
            lvl == 1 ==> o.body@ == lvl1_layout(width as int),
            lvl == 2 ==> o.body@ == lvl2_layout(width as int / 2),
    {
        Obstacle { body: Obstacle::generate_lvl(width, height, lvl) }
    }

    fn generate_lvl(width: u16, height: u16, lvl: u8) -> (body: Vec<Point>)
        requires
            lvl == 1 || lvl == 2,
            lvl == 2 ==> width >= 12,
        ensures
            lvl == 1 ==> body@ == lvl1_layout(width as int),
            lvl == 2 ==> body@ == lvl2_layout(width as int / 2),
    {
        if lvl == 1 {
            Obstacle::generate_lvl_1(width, height)
        } else {
            Obstacle::generate_lvl_2(width, height)
        }
    }

    fn generate_lvl_1(width: u16, height: u16) -> (body: Vec<Point>)
        ensures
            body@ == lvl1_layout(width as int),
    {
        let mut body: Vec<Point> = Vec::new();
        let mut i: u16 = 1;
        while i < width
            invariant
                i % 2 == 1,
                i <= width + 1,
                body@.len() == i as int / 2,
                forall|k: int| 0 <= k < body@.len() ==> #[trigger] body@[k] == (Point {
                    x: (1 + 2 * k) as u32,
                    y: 4,
                }),
            decreases width + 1 - i,
        {
            body.push(Point::new(i as u32, 4));
            i = i + 2;
        }
        proof {
            assert(body@ =~= lvl1_layout(width as int));
        }
        body
    }

    /// Pushes one pyramid row: blocks at columns `mid - off + 2 * j` for
    /// `j` in `0 ..= off`, all on row `y`.
    fn push_row(body: &mut Vec<Point>, mid: u32, off: u32, y: u32)
        requires
            off <= mid,
            mid + off < u32::MAX,
        ensures
            final(body)@.len() == old(body)@.len() + off + 1,
            forall|i: int| 0 <= i < old(body)@.len() ==> final(body)@[i] == old(body)@[i],
            forall|j: int|
                0 <= j <= off ==> #[trigger] final(body)@[old(body)@.len() + j] == (Point {
                    x: (mid - off + 2 * j) as u32,
                    y,
                }),
    {
        let ghost base = body@.len();
        let mut j: u32 = 0;
        while j <= off
            invariant
                j <= off + 1,
                off <= mid,
                mid + off < u32::MAX,
                body@.len() == base + j,
                forall|i: int| 0 <= i < base ==> body@[i] == old(body)@[i],
                forall|i: int|
                    0 <= i < j ==> #[trigger] body@[base + i] == (Point {
                        x: (mid - off + 2 * i) as u32,
                        y,
                    }),
            decreases off + 1 - j,
        {
            body.push(Point::new(mid - off + 2 * j, y));
            j = j + 1;
        }
    }

    fn generate_lvl_2(width: u16, height: u16) -> (body: Vec<Point>)
        requires
            width >= 12,
        ensures
            body@ == lvl2_layout(width as int / 2),
    {
        let mid: u32 = (width / 2) as u32;
        let mut body: Vec<Point> = Vec::new();
        Obstacle::push_row(&mut body, mid, 6, 5);
        let ghost b1 = body@;
        Obstacle::push_row(&mut body, mid, 4, 7);
        let ghost b2 = body@;
        Obstacle::push_row(&mut body, mid, 2, 9);
        proof {
            assert(b1.len() == 7 && b2.len() == 12 && body@.len() == 15);
            assert forall|k: int| 0 <= k < 15 implies #[trigger] body@[k] == lvl2_block(
                mid as int,
                k,
            ) by {
                if k < 7 {
                    assert(b1[0 + k] == (Point { x: (mid - 6 + 2 * k) as u32, y: 5u32 }));
                    assert(b2[k] == b1[k]);
                    assert(body@[k] == b2[k]);
                } else if k < 12 {
                    assert(b2[b1.len() + (k - 7)] == (Point {
                        x: (mid - 4 + 2 * (k - 7)) as u32,
                        y: 7u32,
                    }));
                    assert(body@[k] == b2[k]);
                } else {
                    assert(body@[b2.len() + (k - 12)] == (Point {
                        x: (mid - 2 + 2 * (k - 12)) as u32,
                        y: 9u32,
                    }));
                }
            }
            assert(body@ =~= lvl2_layout(width as int / 2));
        }
        body
    }
}

} // verus!
