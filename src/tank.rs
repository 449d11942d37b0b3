use vstd::prelude::*;
use unicode_segmentation::UnicodeSegmentation;
use crate::bullet::Bullet;
use crate::color::Color;
use crate::direction::Direction;
use crate::viewport::Viewport;
use crate::{Boundary, Position};

verus! {

/// The three rows of a tank sprite.
pub type TankPicture = [&'static str; 3];

pub const TANK_UP: TankPicture = ["╔═║═╗", "┋ ╩ ┋", "╚═══╝"];

pub const TANK_DOWN: TankPicture = ["╔═══╗", "┋ ╦ ┋", "╚═║═╝"];

pub const TANK_RIGHT: TankPicture = ["╔╍╍╍╗", "║ ╠══", "╚╍╍╍╝"];

pub const TANK_LEFT: TankPicture = ["╔╍╍╍╗", "══╣ ║", "╚╍╍╍╝"];

/// The number of extended grapheme clusters in a text.
pub uninterp spec fn grapheme_count_of(s: Seq<char>) -> nat;

/// Relies on `UnicodeSegmentation::graphemes` (extended clusters) and
/// `Iterator::count`: the count depends on the characters alone, and each
/// cluster it yields is a non-empty slice of the text.
#[verifier::external_body]
fn count_graphemes(s: &str) -> (r: usize)
    ensures
        r == grapheme_count_of(s@),
        r <= s@.len(),
{
    s.graphemes(true).count()
}

#[derive(Clone, Copy, Debug, PartialEq, Eq)]
pub struct Tank {
    pub position: Position,
    pub direction: Direction,
    pub color: Color,
}

impl Tank {
    /// Footprint width in cells: the clusters of the top row of the upward sprite.
    pub open spec fn spec_width() -> int {
        grapheme_count_of(TANK_UP[0]@) as int
    }

    /// Footprint height in cells: the rows of a sprite.
    pub open spec fn spec_height() -> int {
        3
    }

    pub open spec fn half_width() -> int {
        Self::spec_width() / 2
    }

    pub open spec fn half_height() -> int {
        Self::spec_height() / 2
    }

    /// A centre whose boundary has all four coordinates on the grid's type.
    pub open spec fn placeable(p: Position) -> bool {
        &&& Self::half_width() <= p.0
        &&& Self::half_height() <= p.1
        &&& p.0 + Self::half_width() <= u16::MAX
        &&& p.1 + Self::half_height() <= u16::MAX
    }

    /// The boundary of a centre lies inside the viewport.
    pub open spec fn within(p: Position, vp: Viewport) -> bool {
        &&& Self::placeable(p)
        &&& p.0 + Self::half_width() <= vp.width
        &&& p.1 + Self::half_height() <= vp.height
    }

    pub open spec fn spec_boundary(p: Position) -> Boundary {
        (
            ((p.0 - Self::half_width()) as u16, (p.1 - Self::half_height()) as u16),
            ((p.0 + Self::half_width()) as u16, (p.1 + Self::half_height()) as u16),
        )
    }

    /// The candidate centre one step ahead, held back at the viewport's edges.
    pub open spec fn spec_go(self, vp: Viewport) -> Position {
        let (x, y) = self.position;
        match self.direction {
            Direction::Up => if y > 2 { (x, (y - 1) as u16) } else { self.position },
            Direction::Down => if y + Self::half_height() < vp.height {
                (x, (y + 1) as u16)
            } else {
                self.position
            },
            Direction::Left => if x > 2 { ((x - 1) as u16, y) } else { self.position },
            Direction::Right => if x + Self::half_width() < vp.width {
                ((x + 1) as u16, y)
            } else {
                self.position
            },
        }
    }

    /// The cell just past the footprint's edge in the facing direction, where
    /// that cell is on the grid's type.
    pub open spec fn spawn_cell(self) -> Option<Position> {
        let (x, y) = self.position;
        match self.direction {
            Direction::Up => if y >= Self::half_height() + 1 {
                Some((x, (y - Self::half_height() - 1) as u16))
            } else {
                None
            },
            Direction::Down => if y + Self::half_height() + 1 <= u16::MAX {
                Some((x, (y + Self::half_height() + 1) as u16))
            } else {
                None
            },
            Direction::Left => if x >= Self::half_width() + 1 {
                Some(((x - Self::half_width() - 1) as u16, y))
            } else {
                None
            },
            Direction::Right => if x + Self::half_width() + 1 <= u16::MAX {
                Some(((x + Self::half_width() + 1) as u16, y))
            } else {
                None
            },
        }
    }

    pub open spec fn picture_of(d: Direction) -> TankPicture {
        match d {
            Direction::Up => TANK_UP,
            Direction::Down => TANK_DOWN,
            Direction::Left => TANK_LEFT,
            Direction::Right => TANK_RIGHT,
        }
    }

    pub fn new(position: Position, direction: Direction, color: Color) -> (r: Tank)
        ensures
            r == (Tank { position, direction, color }),
    {
        Tank { position, direction, color }
    }

    pub fn width() -> (r: u16)
        ensures
            r == Self::spec_width(),
            r <= 5,
    {
        proof {
            reveal_strlit("╔═║═╗");
        }
        let n = count_graphemes(TANK_UP[0]);
        n as u16
    }

    pub fn height() -> (r: u16)
        ensures
            r == Self::spec_height(),
    {
        TANK_UP.len() as u16
    }

    pub fn is_placeable(position: Position) -> (r: bool)
        ensures
            r == Self::placeable(position),
    {
        let hw = Self::width() / 2;
        let hh = Self::height() / 2;
        position.0 >= hw && position.1 >= hh && position.0 <= u16::MAX - hw && position.1
            <= u16::MAX - hh
    }

    pub fn boundary(position: Position) -> (r: Boundary)
        requires
            Self::placeable(position),
        ensures
            r == Self::spec_boundary(position),
    {
        let hw = Self::width() / 2;
        let hh = Self::height() / 2;
        ((position.0 - hw, position.1 - hh), (position.0 + hw, position.1 + hh))
    }

    pub fn get_tank_picture(&self) -> (r: TankPicture)
        ensures
            r == Self::picture_of(self.direction),
    {
        match self.direction {
            Direction::Up => TANK_UP,
            Direction::Down => TANK_DOWN,
            Direction::Left => TANK_LEFT,
            Direction::Right => TANK_RIGHT,
        }
    }

    pub fn move_to(&mut self, position: Position)
        ensures
            *final(self) == (Tank { position, ..*old(self) }),
    {
        self.position = position;
    }

    pub fn go(&self, viewport: &Viewport) -> (r: Position)
        ensures
            r == self.spec_go(*viewport),
            Self::placeable(self.position) ==> Self::placeable(r),
            Self::within(self.position, *viewport) ==> Self::within(r, *viewport),
    {
        let hw = Self::width() / 2;
        let hh = Self::height() / 2;
        let (x, y) = self.position;
        match self.direction {
            Direction::Up => if y > 2 { (x, y - 1) } else { self.position },
            Direction::Down => if y < viewport.height && viewport.height - y > hh {
                (x, y + 1)
            } else {
                self.position
            },
            Direction::Left => if x > 2 { (x - 1, y) } else { self.position },
            Direction::Right => if x < viewport.width && viewport.width - x > hw {
                (x + 1, y)
            } else {
                self.position
            },
        }
    }

    pub fn turn(&mut self, direction: Direction)
        ensures
            *final(self) == (Tank { direction, ..*old(self) }),
    {
        self.direction = direction;
    }

    pub fn is_direction(&self, direction: Direction) -> (r: bool)
        ensures
            r == (self.direction == direction),
    {
        self.direction == direction
    }

    /// Fires one bullet from just past the footprint, travelling the way the
    /// tank faces; nothing is fired where that cell is off the grid's type.
    pub fn shoot(&self, bullets: &mut Vec<Bullet>)
        ensures
            final(bullets)@ == match self.spawn_cell() {
                Some(p) => old(bullets)@.push(Bullet { position: p, direction: self.direction }),
                None => old(bullets)@,
            },
    {
        let hw = Self::width() / 2;
        let hh = Self::height() / 2;
        let (x, y) = self.position;
        let cell: Option<Position> = match self.direction {
            Direction::Up => if y > hh { Some((x, y - hh - 1)) } else { None },
            Direction::Down => if y < u16::MAX - hh { Some((x, y + hh + 1)) } else { None },
            Direction::Left => if x > hw { Some((x - hw - 1, y)) } else { None },
            Direction::Right => if x < u16::MAX - hw { Some((x + hw + 1, y)) } else { None },
        };
        match cell {
            Some(p) => bullets.push(Bullet::new(p, self.direction)),
            None => {},
        }
    }
}

} // verus!
