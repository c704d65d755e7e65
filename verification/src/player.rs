use vstd::prelude::*;
use crate::modes::{Key, StartMode};

verus! {

/// The controllable entity.  Vertical speed is kept in tenths of a cell per
/// frame: a flap sets it to -20 tenths (upward), gravity adds 2 tenths per
/// frame, and gravity stops adding once the speed has reached 20 tenths.
/// Only whole cells move `y`: the tenths are truncated toward zero each
/// frame, and `y` is clamped so it never goes above the top of the area.
#[derive(Copy, Clone, Debug, PartialEq, Eq, Structural)]
pub struct Player {
    pub x: i32,
    pub y: i32,
    pub velocity_tenths: i32,
}

impl Player {
    /// Every state the game can reach keeps the player inside these bounds:
    /// positions never go negative, and the speed stays between a full flap
    /// and the gravity cap, always a whole number of gravity steps.
    pub open spec fn wf(self) -> bool {
        &&& 0 <= self.x
        &&& 0 <= self.y
        &&& -20 <= self.velocity_tenths <= 20
        &&& self.velocity_tenths % 2 == 0
    }

    /// The speed after one frame: a flap forces -20 tenths whatever the
    /// speed was; otherwise gravity adds 2 tenths, but only below the cap.
    pub open spec fn next_velocity(v: int, flap: bool) -> int {
        if flap {
            -20
        } else if v < 20 {
            v + 2
        } else {
            v
        }
    }

    /// Whole cells of vertical movement carried by a speed of `v` tenths:
    /// truncation toward zero.
    pub open spec fn whole_cells(v: int) -> int {
        if v >= 0 {
            v / 10
        } else {
            -((-v) / 10)
        }
    }

    /// A vertical position pushed back inside the area: never negative.
    pub open spec fn clamped(y: int) -> int {
        if y < 0 {
            0
        } else {
            y
        }
    }

    pub fn new(x: i32, y: i32) -> (p: Player)
        ensures
            p.x == x,
            p.y == y,
            p.velocity_tenths == 0,
    {
        Player { x, y, velocity_tenths: 0 }
    }

    /// One physics frame: the flap key resets the speed, gravity otherwise
    /// pulls it down toward the cap; the player always advances one cell to
    /// the right and falls by the whole cells of its new speed, never below
    /// position zero.
    pub fn tick(&mut self, key: Option<Key>)
        requires
            old(self).wf(),
            old(self).x < i32::MAX,
            old(self).y <= i32::MAX - 2,
        ensures
            final(self).wf(),
            final(self).velocity_tenths == Self::next_velocity(
                old(self).velocity_tenths as int,
                key == Some(Key::Space),
            ),
            final(self).x == old(self).x + 1,
            final(self).y == Self::clamped(
                old(self).y + Self::whole_cells(final(self).velocity_tenths as int),
            ),
            final(self).y >= 0,
    {
        let flap: bool = match key {
            Some(Key::Space) => true,
            _ => false,
        };
        if flap {
            self.velocity_tenths = -20;
        } else if self.velocity_tenths < 20 {
            self.velocity_tenths = self.velocity_tenths + 2;
        }
        self.x = self.x + 1;
        let cells: i32 = if self.velocity_tenths >= 0 {
            self.velocity_tenths / 10
        } else {
            -((-self.velocity_tenths) / 10)
        };
        self.y = self.y + cells;
        if self.y < 0 {
            self.y = 0;
        }
    }

    /// Whether this frame ended the round, given the play area's size in
    /// character cells: falling out at the bottom loses, and that check
    /// comes first; otherwise reaching the right edge wins.
    pub open spec fn spec_try_complete(self, width: u32, height: u32) -> Option<StartMode> {
        if self.y >= 0 && self.y as int >= height as int {
            Some(StartMode::Failed)
        } else if self.x >= 0 && self.x as int >= width as int {
            Some(StartMode::Succeeded)
        } else {
            None
        }
    }

    pub fn try_complete(&self, width: u32, height: u32) -> (r: Option<StartMode>)
        ensures
            r == self.spec_try_complete(width, height),
    {
        if self.y >= 0 && self.y as u32 >= height {
            Some(StartMode::Failed)
        } else if self.x >= 0 && self.x as u32 >= width {
            Some(StartMode::Succeeded)
        } else {
            None
        }
    }
}

/// A frame that drives the player out at the bottom fails the round, even
/// when the right edge is reached in the same frame.
pub proof fn lemma_bottom_overrides_right(p: Player, width: u32, height: u32)
    requires
        p.y >= 0,
        p.y as int >= height as int,
    ensures
        p.spec_try_complete(width, height) == Some(StartMode::Failed),
{
}

/// A frame that keeps the player above the bottom and drives it to the right
/// edge wins the round.
pub proof fn lemma_right_edge_succeeds(p: Player, width: u32, height: u32)
    requires
        (p.y as int) < height as int,
        p.x >= 0,
        p.x as int >= width as int,
    ensures
        p.spec_try_complete(width, height) == Some(StartMode::Succeeded),
{
}

} // verus!
