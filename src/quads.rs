use crate::geometry::{circle_rectangle_collision, collides, Circle, Rect, MAX_SCREEN};
use vstd::prelude::*;

verus! {

/// Horizontal pitch of the block grid; each block is this wide less the gutter.
pub const QUAD_WIDTH: i64 = 96;

pub const QUAD_HEIGHT: i64 = 28;

/// Empty space left between neighbouring blocks.
pub const QUAD_GUTTER: i64 = 4;

/// Vertical position of the block row.
pub const QUAD_TOP: i64 = 32;

/// One destructible block.
#[derive(Clone, Copy, Debug, PartialEq, Eq, Structural)]
pub struct Quad {
    pub rect: Rect,
}

impl Quad {
    pub fn new(rect: Rect) -> (q: Quad)
        ensures
            q.rect == rect,
    {
        Quad { rect }
    }
}

/// Number of blocks in the row: one fewer than the grid pitches that fit the screen.
pub open spec fn quad_columns(screen_w: int) -> int {
    screen_w / QUAD_WIDTH as int - 1
}

/// Left margin that centers the row on the screen (halves rounded down).
pub open spec fn quad_margin(screen_w: int) -> int {
    (screen_w - QUAD_WIDTH * quad_columns(screen_w)) / 2
}

/// The block in column `i`.
pub open spec fn quad_at(screen_w: int, i: int) -> Quad {
    Quad {
        rect: Rect {
            x: (quad_margin(screen_w) + QUAD_WIDTH * i) as i64,
            y: QUAD_TOP,
            w: (QUAD_WIDTH - QUAD_GUTTER) as i64,
            h: QUAD_HEIGHT,
        },
    }
}

/// The full block field for a screen width: a single centered row, left to right.
pub open spec fn quad_field(screen_w: int) -> Seq<Quad> {
    let n = if quad_columns(screen_w) < 0 {
        0
    } else {
        quad_columns(screen_w)
    };
    Seq::new(n as nat, |i: int| quad_at(screen_w, i))
}

/// Every block's rectangle is well formed.
pub open spec fn all_wf(s: Seq<Quad>) -> bool {
    forall|i: int| 0 <= i < s.len() ==> (#[trigger] s[i]).rect.wf()
}

/// The blocks that the circle does not touch, in their original order.
pub open spec fn survivors(c: Circle, s: Seq<Quad>) -> Seq<Quad> {
    s.filter(|q: Quad| !collides(c, q.rect))
}

/// How many blocks the circle touches.
pub open spec fn hits(c: Circle, s: Seq<Quad>) -> nat {
    s.filter(|q: Quad| collides(c, q.rect)).len()
}

/// Builds the block field for a screen width; the same width always gives the same field.
pub fn generate_quads(screen_w: i64) -> (quads: Vec<Quad>)
    requires
        0 <= screen_w <= MAX_SCREEN,
    ensures
        quads@ == quad_field(screen_w as int),
{
    let columns: i64 = screen_w / QUAD_WIDTH - 1;
    let mut quads: Vec<Quad> = Vec::new();
    let left_margin: i64 = (screen_w - QUAD_WIDTH * columns) / 2;
    let w: i64 = QUAD_WIDTH - QUAD_GUTTER;
    let h: i64 = QUAD_HEIGHT;
    let y: i64 = QUAD_TOP;
    let mut i: i64 = 0;
    while i < columns
        invariant
            0 <= screen_w <= MAX_SCREEN,
            columns == quad_columns(screen_w as int),
            left_margin == quad_margin(screen_w as int),
            w == QUAD_WIDTH - QUAD_GUTTER,
            h == QUAD_HEIGHT,
            y == QUAD_TOP,
            0 <= i,
            i <= columns || columns < 0 && i == 0,
            quads@.len() == i,
            forall|j: int| 0 <= j < i ==> quads@[j] == quad_at(screen_w as int, j),
        decreases columns - i,
    {
        let x = left_margin + QUAD_WIDTH * i;
        quads.push(Quad::new(Rect { x, y, w, h }));
        i = i + 1;
    }
    assert(quads@ =~= quad_field(screen_w as int));
    quads
}

/// Every block of a generated field is a well-formed rectangle.
pub proof fn lemma_field_wf(screen_w: int)
    requires
        0 <= screen_w <= MAX_SCREEN,
    ensures
        all_wf(quad_field(screen_w)),
        quad_field(screen_w).len() <= screen_w,
{
}

/// Removes every block that the circle touches, keeping the others in order, and
/// returns how many were removed.
pub fn remove_hit_quads(ball: &Circle, quads: &mut Vec<Quad>) -> (removed: usize)
    requires
        ball.wf(),
        all_wf(old(quads)@),
    ensures
        final(quads)@ == survivors(*ball, old(quads)@),
        removed == hits(*ball, old(quads)@),
        final(quads)@.len() + removed == old(quads)@.len(),
        all_wf(final(quads)@),
{
    let ghost orig = quads@;
    let mut kept: Vec<Quad> = Vec::new();
    let mut removed: usize = 0;
    let mut i: usize = 0;
    while i < quads.len()
        invariant
            ball.wf(),
            quads@ == orig,
            all_wf(orig),
            0 <= i <= orig.len(),
            kept@ == survivors(*ball, orig.take(i as int)),
            removed == hits(*ball, orig.take(i as int)),
            kept@.len() + removed == i,
        decreases orig.len() - i,
    {
        let q = quads[i];
        proof {
            assert(orig.take(i + 1).drop_last() =~= orig.take(i as int));
            assert(orig.take(i + 1).last() == q);
            reveal(Seq::filter);
        }
        if circle_rectangle_collision(ball, &q.rect) {
            removed = removed + 1;
        } else {
            kept.push(q);
        }
        i = i + 1;
    }
    proof {
        assert(orig.take(orig.len() as int) =~= orig);
        lemma_survivors_wf(*ball, orig);
    }
    *quads = kept;
    removed
}

/// Sweeping splits the field in two: every block either survives or counts as a hit.
pub proof fn lemma_sweep_partitions(c: Circle, s: Seq<Quad>)
    ensures
        survivors(c, s).len() + hits(c, s) == s.len(),
    decreases s.len(),
{
    reveal(Seq::filter);
    if s.len() > 0 {
        lemma_sweep_partitions(c, s.drop_last());
    }
}

/// Generating the field twice for the same width yields identical blocks.
pub proof fn lemma_field_deterministic(screen_w: i64, first: Seq<Quad>, second: Seq<Quad>)
    requires
        first == quad_field(screen_w as int),
        second == quad_field(screen_w as int),
    ensures
        first.len() == second.len(),
        forall|i: int| 0 <= i < first.len() ==> (#[trigger] first[i]).rect == second[i].rect,
{
}

proof fn lemma_survivors_wf(c: Circle, s: Seq<Quad>)
    requires
        all_wf(s),
    ensures
        all_wf(survivors(c, s)),
{
    broadcast use vstd::seq_lib::group_filter_ensures;

    let t = survivors(c, s);
    assert forall|i: int| 0 <= i < t.len() implies (#[trigger] t[i]).rect.wf() by {
        assert(t.contains(t[i]));
        s.lemma_filter_contains_rev(|q: Quad| !collides(c, q.rect), t[i]);
    }
}

} // verus!
