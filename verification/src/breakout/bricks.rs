//! The wall of bricks: how it is laid out, and how the ball knocks bricks
//! out of it, one per frame.

use vstd::prelude::*;
use crate::geometry::Rect;
use crate::breakout::{
    BRICK_COLS, BRICK_HEIGHT, BRICK_OFFSET_LEFT, BRICK_OFFSET_TOP, BRICK_PADDING, BRICK_ROWS,
    BRICK_WIDTH,
};

verus! {

/// A brick: where it sits, and whether it still stands.
#[derive(Clone, Copy, Debug, PartialEq, Eq, Structural)]
pub struct Brick {
    pub rect: Rect,
    pub alive: bool,
}

impl Brick {
    /// The brick stands in the way of a ball with the given bounding box.
    pub open spec fn blocks(self, ball: Rect) -> bool {
        self.alive && self.rect.touches(ball)
    }

    /// The same brick, knocked out.
    pub open spec fn broken(self) -> Brick {
        Brick { rect: self.rect, alive: false }
    }
}

/// The standing brick of the given row and column of a fresh wall.
pub open spec fn brick_at(row: int, col: int) -> Brick {
    Brick {
        rect: Rect {
            x: (BRICK_OFFSET_LEFT + col * (BRICK_WIDTH + BRICK_PADDING)) as i64,
            y: (BRICK_OFFSET_TOP + row * (BRICK_HEIGHT + BRICK_PADDING)) as i64,
            w: BRICK_WIDTH,
            h: BRICK_HEIGHT,
        },
        alive: true,
    }
}

/// A fresh wall: every brick standing, row after row from the top, each row
/// from left to right.
pub open spec fn full_wall() -> Seq<Brick> {
    Seq::new(
        (BRICK_ROWS * BRICK_COLS) as nat,
        |i: int| brick_at(i / BRICK_COLS as int, i % BRICK_COLS as int),
    )
}

/// No brick of the wall stands.
pub open spec fn cleared(bricks: Seq<Brick>) -> bool {
    forall|i: int| 0 <= i < bricks.len() ==> !(#[trigger] bricks[i]).alive
}

/// Brick `i` is the one the ball knocks out: it blocks the ball and no brick
/// before it does.
pub open spec fn struck_first(bricks: Seq<Brick>, ball: Rect, i: int) -> bool {
    &&& 0 <= i < bricks.len()
    &&& bricks[i].blocks(ball)
    &&& forall|j: int| 0 <= j < i ==> !(#[trigger] bricks[j]).blocks(ball)
}

/// No brick of the wall blocks the ball.
pub open spec fn none_struck(bricks: Seq<Brick>, ball: Rect) -> bool {
    forall|j: int| 0 <= j < bricks.len() ==> !(#[trigger] bricks[j]).blocks(ball)
}

/// The index of the brick that the ball knocks out, if any.
pub open spec fn first_struck(bricks: Seq<Brick>, ball: Rect) -> Option<int> {
    if exists|i: int| struck_first(bricks, ball, i) {
        Some(choose|i: int| struck_first(bricks, ball, i))
    } else {
        None
    }
}

/// The wall after the ball had its say: the first blocking brick is knocked
/// out, every other brick is as before.
pub open spec fn after_strike(bricks: Seq<Brick>, ball: Rect) -> Seq<Brick> {
    match first_struck(bricks, ball) {
        Some(i) => bricks.update(i, bricks[i].broken()),
        None => bricks,
    }
}

/// At most one brick is the first to block the ball.
pub proof fn lemma_struck_first_unique(bricks: Seq<Brick>, ball: Rect, i: int, j: int)
    requires
        struck_first(bricks, ball, i),
        struck_first(bricks, ball, j),
    ensures
        i == j,
{
}

/// `first_struck` names brick `i` exactly when brick `i` is struck first.
pub proof fn lemma_first_struck_is(bricks: Seq<Brick>, ball: Rect, i: int)
    ensures
        first_struck(bricks, ball) == Some(i) <==> struck_first(bricks, ball, i),
{
    if struck_first(bricks, ball, i) {
        let k = choose|k: int| struck_first(bricks, ball, k);
        lemma_struck_first_unique(bricks, ball, i, k);
    }
}

/// `first_struck` names no brick exactly when no brick blocks the ball.
pub proof fn lemma_first_struck_none(bricks: Seq<Brick>, ball: Rect)
    ensures
        first_struck(bricks, ball).is_none() <==> none_struck(bricks, ball),
{
    if none_struck(bricks, ball) {
        if exists|i: int| struck_first(bricks, ball, i) {
            let k = choose|k: int| struck_first(bricks, ball, k);
            assert(bricks[k].blocks(ball));
        }
    } else {
        let j = choose|j: int| 0 <= j < bricks.len() && (#[trigger] bricks[j]).blocks(ball);
        lemma_some_brick_struck_first(bricks, ball, j);
    }
}

/// Where brick `j` blocks the ball, some brick at or before `j` is struck
/// first.
pub proof fn lemma_some_brick_struck_first(bricks: Seq<Brick>, ball: Rect, j: int)
    requires
        0 <= j < bricks.len(),
        bricks[j].blocks(ball),
    ensures
        exists|i: int| 0 <= i <= j && struck_first(bricks, ball, i),
    decreases j,
{
    if forall|k: int| 0 <= k < j ==> !(#[trigger] bricks[k]).blocks(ball) {
        assert(struck_first(bricks, ball, j));
    } else {
        let k = choose|k: int| 0 <= k < j && (#[trigger] bricks[k]).blocks(ball);
        lemma_some_brick_struck_first(bricks, ball, k);
    }
}

/// Builds a fresh wall of `BRICK_ROWS` rows of `BRICK_COLS` standing bricks.
pub fn create_bricks() -> (bricks: Vec<Brick>)
    ensures
        bricks@ == full_wall(),
        bricks@.len() == BRICK_ROWS * BRICK_COLS,
        forall|row: int, col: int|
            0 <= row < BRICK_ROWS && 0 <= col < BRICK_COLS ==> bricks@[row * BRICK_COLS + col]
                == brick_at(row, col),
{
    let mut bricks: Vec<Brick> = Vec::new();
    let mut row: usize = 0;
    while row < BRICK_ROWS
        invariant
            row <= BRICK_ROWS,
            bricks@.len() == row * 10,
            forall|i: int| 0 <= i < bricks@.len() ==> bricks@[i] == brick_at(i / 10, i % 10),
        decreases BRICK_ROWS - row,
    {
        let mut col: usize = 0;
        while col < BRICK_COLS
            invariant
                row < BRICK_ROWS,
                col <= BRICK_COLS,
                bricks@.len() == row * 10 + col,
                forall|i: int| 0 <= i < bricks@.len() ==> bricks@[i] == brick_at(i / 10, i % 10),
            decreases BRICK_COLS - col,
        {
            let pitch_x: i64 = BRICK_WIDTH + BRICK_PADDING;
            let pitch_y: i64 = BRICK_HEIGHT + BRICK_PADDING;
            assert(0 <= col * pitch_x <= 10 * pitch_x && 0 <= row * pitch_y <= 6 * pitch_y)
                by (nonlinear_arith)
                requires
                    0 <= col <= 10,
                    0 <= row <= 6,
                    pitch_x >= 0,
                    pitch_y >= 0,
            ;
            let x: i64 = BRICK_OFFSET_LEFT + col as i64 * pitch_x;
            let y: i64 = BRICK_OFFSET_TOP + row as i64 * pitch_y;
            bricks.push(
                Brick { rect: Rect { x, y, w: BRICK_WIDTH, h: BRICK_HEIGHT }, alive: true },
            );
            col += 1;
        }
        row += 1;
    }
    assert(bricks@ =~= full_wall());
    assert forall|row: int, col: int| 0 <= row < BRICK_ROWS && 0 <= col < BRICK_COLS implies bricks@[row
        * BRICK_COLS + col] == brick_at(row, col) by {
        let i = row * 10 + col;
        assert(i / 10 == row && i % 10 == col);
    }
    bricks
}

/// Whether every brick of the wall has been knocked out.
pub fn all_dead(bricks: &Vec<Brick>) -> (r: bool)
    ensures
        r == cleared(bricks@),
{
    let mut i: usize = 0;
    while i < bricks.len()
        invariant
            i <= bricks.len(),
            forall|j: int| 0 <= j < i ==> !(#[trigger] bricks@[j]).alive,
        decreases bricks.len() - i,
    {
        if bricks[i].alive {
            return false;
        }
        i += 1;
    }
    true
}

/// Knocks out the first standing brick that the ball's bounding box
/// overlaps, and no other. Returns its index, or `None` where no brick
/// blocks the ball; the wall is then unchanged.
pub fn strike_first(bricks: &mut Vec<Brick>, ball: Rect) -> (hit: Option<usize>)
    ensures
        final(bricks)@ == after_strike(old(bricks)@, ball),
        hit matches Some(i) ==> ({
            &&& struck_first(old(bricks)@, ball, i as int)
            &&& final(bricks)@ == old(bricks)@.update(i as int, old(bricks)@[i as int].broken())
        }),
        hit is None ==> none_struck(old(bricks)@, ball) && final(bricks)@ == old(bricks)@,
        match hit {
            Some(i) => first_struck(old(bricks)@, ball) == Some(i as int),
            None => first_struck(old(bricks)@, ball).is_none(),
        },
{
    let mut i: usize = 0;
    while i < bricks.len()
        invariant
            i <= bricks.len(),
            bricks@ == old(bricks)@,
            forall|j: int| 0 <= j < i ==> !(#[trigger] bricks@[j]).blocks(ball),
        decreases bricks.len() - i,
    {
        let brick: Brick = bricks[i];
        if brick.alive && brick.rect.overlaps(&ball) {
            bricks.set(i, Brick { rect: brick.rect, alive: false });
            proof {
                assert(struck_first(old(bricks)@, ball, i as int));
                lemma_first_struck_is(old(bricks)@, ball, i as int);
            }
            return Some(i);
        }
        i += 1;
    }
    proof {
        lemma_first_struck_none(old(bricks)@, ball);
    }
    None
}

} // verus!
