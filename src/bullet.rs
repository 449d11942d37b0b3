use vstd::prelude::*;
use crate::direction::Direction;
use crate::viewport::Viewport;
use crate::Position;

verus! {

/// A single-cell projectile.
#[derive(Clone, Copy, Debug, PartialEq, Eq)]
pub struct Bullet {
    pub position: Position,
    pub direction: Direction,
}

impl Bullet {
    pub fn new(position: Position, direction: Direction) -> (r: Bullet)
        ensures
            r == (Bullet { position, direction }),
    {
        Bullet { position, direction }
    }

    /// One cell onward in the travel direction, or the same cell where that
    /// step would leave `[0, width] x [0, height]`.
    pub open spec fn spec_step(self, vp: Viewport) -> Position {
        let (x, y) = self.position;
        match self.direction {
            Direction::Up => if y > 0 { (x, (y - 1) as u16) } else { self.position },
            Direction::Down => if y < vp.height { (x, (y + 1) as u16) } else { self.position },
            Direction::Left => if x > 0 { ((x - 1) as u16, y) } else { self.position },
            Direction::Right => if x < vp.width { ((x + 1) as u16, y) } else { self.position },
        }
    }

    /// A bullet at or past the viewport's edge, due for removal.
    pub open spec fn on_edge(self, vp: Viewport) -> bool {
        self.position.0 <= 1 || self.position.0 >= vp.width || self.position.1 <= 1
            || self.position.1 >= vp.height
    }

    pub open spec fn advanced_one(self, vp: Viewport) -> Bullet {
        Bullet { position: self.spec_step(vp), direction: self.direction }
    }

    pub fn go(&mut self, viewport: &Viewport)
        ensures
            *final(self) == old(self).advanced_one(*viewport),
    {
        let (x, y) = self.position;
        self.position =
            match self.direction {
                Direction::Up => if y > 0 { (x, y - 1) } else { self.position },
                Direction::Down => if y < viewport.height { (x, y + 1) } else { self.position },
                Direction::Left => if x > 0 { (x - 1, y) } else { self.position },
                Direction::Right => if x < viewport.width { (x + 1, y) } else { self.position },
            };
    }

    pub fn is_on_edge(&self, viewport: &Viewport) -> (r: bool)
        ensures
            r == self.on_edge(*viewport),
    {
        self.position.0 <= 1 || self.position.0 >= viewport.width || self.position.1 <= 1
            || self.position.1 >= viewport.height
    }
}

/// Every bullet after one step of its own.
pub open spec fn advanced(bullets: Seq<Bullet>, vp: Viewport) -> Seq<Bullet> {
    Seq::new(bullets.len(), |i: int| bullets[i].advanced_one(vp))
}

/// Moves every live bullet one step; none is removed here.
pub fn advance_bullets(bullets: &mut Vec<Bullet>, viewport: &Viewport)
    ensures
        final(bullets)@ == advanced(old(bullets)@, *viewport),
{
    let n = bullets.len();
    let mut i: usize = 0;
    while i < n
        invariant
            n == bullets.len(),
            n == old(bullets).len(),
            i <= n,
            forall|k: int| 0 <= k < i ==> bullets@[k] == old(bullets)@[k].advanced_one(*viewport),
            forall|k: int| i <= k < n ==> bullets@[k] == old(bullets)@[k],
        decreases n - i,
    {
        let mut b = bullets[i];
        b.go(viewport);
        bullets.set(i, b);
        i = i + 1;
    }
    assert(bullets@ =~= advanced(old(bullets)@, *viewport));
}

/// Removes, in one pass, every bullet that stands at or past the viewport's
/// edge, keeping the order of the others, and hands back the removed ones in
/// their order.
pub fn sweep_bullets(bullets: &mut Vec<Bullet>, viewport: &Viewport) -> (removed: Vec<Bullet>)
    ensures
        final(bullets)@ == old(bullets)@.filter(|b: Bullet| !b.on_edge(*viewport)),
        removed@ == old(bullets)@.filter(|b: Bullet| b.on_edge(*viewport)),
{
    let ghost start = bullets@;
    let ghost vp = *viewport;
    let mut kept: Vec<Bullet> = Vec::new();
    let mut removed: Vec<Bullet> = Vec::new();
    let n = bullets.len();
    let mut i: usize = 0;
    while i < n
        invariant
            bullets@ == start,
            vp == *viewport,
            n == start.len(),
            i <= n,
            kept@ == start.subrange(0, i as int).filter(|b: Bullet| !b.on_edge(vp)),
            removed@ == start.subrange(0, i as int).filter(|b: Bullet| b.on_edge(vp)),
        decreases n - i,
    {
        let b = bullets[i];
        let ghost next = start.subrange(0, i + 1);
        assert(next.drop_last() =~= start.subrange(0, i as int));
        assert(next.last() == b);
        proof {
            reveal_with_fuel(Seq::filter, 1);
            assert(next.filter(|b: Bullet| !b.on_edge(vp)) == if !b.on_edge(vp) {
                start.subrange(0, i as int).filter(|b: Bullet| !b.on_edge(vp)).push(b)
            } else {
                start.subrange(0, i as int).filter(|b: Bullet| !b.on_edge(vp))
            });
            assert(next.filter(|b: Bullet| b.on_edge(vp)) == if b.on_edge(vp) {
                start.subrange(0, i as int).filter(|b: Bullet| b.on_edge(vp)).push(b)
            } else {
                start.subrange(0, i as int).filter(|b: Bullet| b.on_edge(vp))
            });
        }
        if b.is_on_edge(viewport) {
            removed.push(b);
        } else {
            kept.push(b);
        }
        i = i + 1;
    }
    assert(start.subrange(0, n as int) =~= start);
    *bullets = kept;
    removed
}

/// A bullet standing exactly on a removal edge (column 1 or `width`, row 1 or
/// `height`) is among those the next sweep removes, and not among those it keeps.
pub proof fn lemma_edge_bullet_is_swept(bullets: Seq<Bullet>, k: int, vp: Viewport)
    requires
        0 <= k < bullets.len(),
        bullets[k].position.0 == 1 || bullets[k].position.0 == vp.width
            || bullets[k].position.1 == 1 || bullets[k].position.1 == vp.height,
    ensures
        bullets.filter(|b: Bullet| b.on_edge(vp)).contains(bullets[k]),
        !bullets.filter(|b: Bullet| !b.on_edge(vp)).contains(bullets[k]),
{
    let drop = |b: Bullet| b.on_edge(vp);
    let keep = |b: Bullet| !b.on_edge(vp);
    bullets.lemma_filter_contains_rev(drop, bullets[k]);
    if bullets.filter(keep).contains(bullets[k]) {
        let j = choose|j: int| 0 <= j < bullets.filter(keep).len() && bullets.filter(keep)[j] == bullets[k];
        bullets.lemma_filter_pred(keep, j);
    }
}

} // verus!
