use vstd::prelude::*;
use crate::direction::Direction;
use crate::tank::Tank;
use crate::viewport::Viewport;
use crate::{Boundary, Position};

verus! {

/// The per-corner separation test of a candidate box `nb` against a standing
/// box `tb`: each corner of `nb` lies outside `tb` along at least one axis.
pub open spec fn separated(nb: Boundary, tb: Boundary) -> bool {
    &&& (nb.0.0 < tb.0.0 || nb.0.0 > tb.1.0 || nb.0.1 < tb.0.1 || nb.0.1 > tb.1.1)
    &&& (nb.1.0 < tb.0.0 || nb.1.0 > tb.1.0 || nb.0.1 < tb.0.1 || nb.0.1 > tb.1.1)
    &&& (nb.0.0 < tb.0.0 || nb.0.0 > tb.1.0 || nb.1.1 < tb.0.1 || nb.1.1 > tb.1.1)
    &&& (nb.1.0 < tb.0.0 || nb.1.0 > tb.1.0 || nb.1.1 < tb.0.1 || nb.1.1 > tb.1.1)
}

/// Two boxes share at least one cell.
pub open spec fn overlaps(a: Boundary, b: Boundary) -> bool {
    &&& a.0.0 <= b.1.0
    &&& b.0.0 <= a.1.0
    &&& a.0.1 <= b.1.1
    &&& b.0.1 <= a.1.1
}

/// The boundary of a centre `p` passes the separation test against every tank
/// but the one at index `i`.
pub open spec fn clear_of_others(tanks: Seq<Tank>, i: int, p: Position) -> bool {
    forall|j: int|
        0 <= j < tanks.len() && j != i ==> separated(
            #[trigger] Tank::spec_boundary(p),
            Tank::spec_boundary(tanks[j].position),
        )
}

pub open spec fn all_placeable(tanks: Seq<Tank>) -> bool {
    forall|k: int| 0 <= k < tanks.len() ==> Tank::placeable(#[trigger] tanks[k].position)
}

/// No two distinct tanks have overlapping boxes.
pub open spec fn no_overlap(tanks: Seq<Tank>) -> bool {
    forall|a: int, b: int|
        0 <= a < tanks.len() && 0 <= b < tanks.len() && a != b ==> !overlaps(
            Tank::spec_boundary(#[trigger] tanks[a].position),
            Tank::spec_boundary(#[trigger] tanks[b].position),
        )
}

/// Tank `i`, already facing its way, steps forward where the candidate centre
/// is clear of the others, and stays put otherwise.
pub open spec fn attempt_move(vp: Viewport, tanks: Seq<Tank>, i: int) -> Seq<Tank> {
    let t = tanks[i];
    let p = t.spec_go(vp);
    if clear_of_others(tanks, i, p) {
        tanks.update(i, Tank { position: p, ..t })
    } else {
        tanks
    }
}

/// The tanks after tank `i` is given direction `d`: a turn in place where it
/// faces elsewhere, an attempted step where it already faces `d`.
pub open spec fn after_update(vp: Viewport, tanks: Seq<Tank>, i: int, d: Direction) -> Seq<Tank> {
    let t = tanks[i];
    if t.direction != d {
        tanks.update(i, Tank { direction: d, ..t })
    } else {
        attempt_move(vp, tanks, i)
    }
}

/// What an update did, for whoever draws the tanks.
#[derive(Clone, Copy, Debug, PartialEq, Eq)]
pub enum Update {
    /// The tank now faces the requested way; its position is unchanged.
    Turned,
    /// The tank stepped (possibly to the same cell, when held at an edge).
    Moved { from: Position, to: Position },
    /// Another tank is in the way; nothing changed.
    Blocked,
}

pub struct GameState {
    pub viewport: Viewport,
    pub tanks: Vec<Tank>,
}

impl GameState {
    /// Every tank's boundary can be computed.
    pub open spec fn wf(&self) -> bool {
        all_placeable(self.tanks@)
    }

    pub fn new(viewport: Viewport) -> (r: GameState)
        ensures
            r.viewport == viewport,
            r.tanks@ == Seq::<Tank>::empty(),
            r.wf(),
    {
        GameState { viewport, tanks: Vec::new() }
    }

    /// Whether a tank other than the one at `tank_index` stands in the way of
    /// a tank centred at `new_position`.
    pub fn can_move(&self, tank_index: usize, new_position: Position) -> (r: bool)
        requires
            self.wf(),
            Tank::placeable(new_position),
        ensures
            r == clear_of_others(self.tanks@, tank_index as int, new_position),
    {
        let new_boundary = Tank::boundary(new_position);
        let mut result = true;
        let mut j: usize = 0;
        while j < self.tanks.len()
            invariant
                self.wf(),
                j <= self.tanks.len(),
                new_boundary == Tank::spec_boundary(new_position),
                result == (forall|k: int|
                    0 <= k < j && k != tank_index ==> separated(
                        #[trigger] Tank::spec_boundary(new_position),
                        Tank::spec_boundary(self.tanks@[k].position),
                    )),
            decreases self.tanks.len() - j,
        {
            if j != tank_index {
                let tank_boundary = Tank::boundary(self.tanks[j].position);
                result = result && (new_boundary.0.0 < tank_boundary.0.0 || new_boundary.0.0
                    > tank_boundary.1.0 || new_boundary.0.1 < tank_boundary.0.1
                    || new_boundary.0.1 > tank_boundary.1.1) && (new_boundary.1.0
                    < tank_boundary.0.0 || new_boundary.1.0 > tank_boundary.1.0
                    || new_boundary.0.1 < tank_boundary.0.1 || new_boundary.0.1
                    > tank_boundary.1.1) && (new_boundary.0.0 < tank_boundary.0.0
                    || new_boundary.0.0 > tank_boundary.1.0 || new_boundary.1.1
                    < tank_boundary.0.1 || new_boundary.1.1 > tank_boundary.1.1) && (
                new_boundary.1.0 < tank_boundary.0.0 || new_boundary.1.0 > tank_boundary.1.0
                    || new_boundary.1.1 < tank_boundary.0.1 || new_boundary.1.1
                    > tank_boundary.1.1);
            }
            j = j + 1;
        }
        result
    }

    /// Applies a directional command to the tank at `tank_index`: a turn in
    /// place where it faces elsewhere, else one clamped step that is kept only
    /// where no other tank is in the way.
    pub fn update_tank(&mut self, tank_index: usize, direction: Direction) -> (r: Update)
        requires
            old(self).wf(),
            tank_index < old(self).tanks.len(),
        ensures
            final(self).wf(),
            final(self).viewport == old(self).viewport,
            final(self).tanks@ == after_update(
                old(self).viewport,
                old(self).tanks@,
                tank_index as int,
                direction,
            ),
            forall|k: int|
                0 <= k < old(self).tanks.len() && Tank::within(
                    old(self).tanks@[k].position,
                    old(self).viewport,
                ) ==> Tank::within(#[trigger] final(self).tanks@[k].position, old(self).viewport),
            no_overlap(old(self).tanks@) ==> no_overlap(final(self).tanks@),
            r == ({
                let t = old(self).tanks@[tank_index as int];
                let p = t.spec_go(old(self).viewport);
                if t.direction != direction {
                    Update::Turned
                } else if clear_of_others(old(self).tanks@, tank_index as int, p) {
                    Update::Moved { from: t.position, to: p }
                } else {
                    Update::Blocked
                }
            }),
    {
        let ghost before = self.tanks@;
        let tank = self.tanks[tank_index];
        if tank.is_direction(direction) {
            let new_position = tank.go(&self.viewport);
            if self.can_move(tank_index, new_position) {
                let mut moved = tank;
                moved.move_to(new_position);
                self.tanks.set(tank_index, moved);
                proof {
                    assert(self.tanks@ == before.update(
                        tank_index as int,
                        Tank { position: new_position, ..tank },
                    ));
                    assert forall|a: int, b: int|
                        0 <= a < self.tanks.len() && 0 <= b < self.tanks.len() && a != b
                            && no_overlap(before) implies !overlaps(
                        Tank::spec_boundary(#[trigger] self.tanks@[a].position),
                        Tank::spec_boundary(#[trigger] self.tanks@[b].position),
                    ) by {
                        if a == tank_index {
                            lemma_separated_boxes_disjoint(new_position, before[b].position);
                        } else if b == tank_index {
                            lemma_separated_boxes_disjoint(new_position, before[a].position);
                        } else {
                            assert(self.tanks@[a] == before[a]);
                            assert(self.tanks@[b] == before[b]);
                        }
                    }
                }
                Update::Moved { from: tank.position, to: new_position }
            } else {
                Update::Blocked
            }
        } else {
            let mut turned = tank;
            turned.turn(direction);
            self.tanks.set(tank_index, turned);
            proof {
                assert forall|a: int| 0 <= a < self.tanks.len() implies #[trigger] self.tanks@[a].position
                    == before[a].position by {}
            }
            Update::Turned
        }
    }
}

/// Where the per-corner test passes between two tank boxes, the boxes share
/// no cell, seen from either side.
pub proof fn lemma_separated_boxes_disjoint(p: Position, q: Position)
    requires
        Tank::placeable(p),
        Tank::placeable(q),
        separated(Tank::spec_boundary(p), Tank::spec_boundary(q)),
    ensures
        !overlaps(Tank::spec_boundary(p), Tank::spec_boundary(q)),
        !overlaps(Tank::spec_boundary(q), Tank::spec_boundary(p)),
{
}

/// Turning changes nothing but the facing of the turned tank, and a second
/// identical command is then exactly one attempted step, which leaves every
/// facing as it was.
pub proof fn lemma_turn_then_move(vp: Viewport, tanks: Seq<Tank>, i: int, d: Direction)
    requires
        0 <= i < tanks.len(),
    ensures
        ({
            let once = after_update(vp, tanks, i, d);
            let twice = after_update(vp, once, i, d);
            &&& once.len() == tanks.len()
            &&& once[i].direction == d
            &&& tanks[i].direction != d ==> once[i] == (Tank { direction: d, ..tanks[i] })
            &&& forall|k: int| 0 <= k < tanks.len() && k != i ==> #[trigger] once[k] == tanks[k]
            &&& twice == attempt_move(vp, once, i)
            &&& twice.len() == once.len()
            &&& forall|k: int|
                0 <= k < once.len() ==> (#[trigger] twice[k]).direction == once[k].direction
                    && twice[k].color == once[k].color
        }),
{
}

} // verus!
