//! The player: a position on the bottom row that moves sideways, and a slot
//! for at most one shot in flight.

use vstd::prelude::*;

use crate::frame::{on_grid, put_cell, Drawable, Frame};
use crate::invaders::{Invader, Invaders};
use crate::shot::Shot;
use crate::{NUM_COLS, NUM_ROWS};

verus! {

/// Glyph of the player.
pub const PLAYER_GLYPH: char = 'A';

pub struct Player {
    pub x: usize,
    pub y: usize,
    pub shot: Option<Shot>,
}

impl Player {
    pub open spec fn wf(&self) -> bool {
        &&& on_grid(self.x as int, self.y as int)
        &&& self.shot matches Some(s) ==> s.wf()
    }

    /// The shot slot after `delta` nanoseconds: the shot advances, and is
    /// released once it is dead.
    pub open spec fn shot_after(shot: Option<Shot>, delta: u64) -> Option<Shot> {
        match shot {
            None => None,
            Some(s) => if s.advanced(delta).is_dead() { None } else { Some(s.advanced(delta)) },
        }
    }

    /// The player in the middle of the bottom row, with no shot.
    pub fn new() -> (r: Player)
        ensures
            r.wf(),
            r.x == NUM_COLS / 2,
            r.y == NUM_ROWS - 1,
            r.shot is None,
    {
        Player { x: NUM_COLS / 2, y: NUM_ROWS - 1, shot: None }
    }

    /// One column left, unless already at the left edge.
    pub fn move_left(&mut self)
        requires
            old(self).wf(),
        ensures
            final(self).wf(),
            final(self).x == if old(self).x > 0 { old(self).x - 1 } else { 0int },
            final(self).y == old(self).y,
            final(self).shot == old(self).shot,
    {
        if self.x > 0 {
            self.x -= 1;
        }
    }

    /// One column right, unless already at the right edge.
    pub fn move_right(&mut self)
        requires
            old(self).wf(),
        ensures
            final(self).wf(),
            final(self).x == if old(self).x < NUM_COLS - 1 { old(self).x + 1 } else { old(self).x as int },
            final(self).y == old(self).y,
            final(self).shot == old(self).shot,
    {
        if self.x < NUM_COLS - 1 {
            self.x += 1;
        }
    }

    /// Fires a shot from the player's position if none is in flight, and
    /// says whether it did; with a shot in flight nothing changes.
    pub fn shoot(&mut self) -> (fired: bool)
        requires
            old(self).wf(),
        ensures
            final(self).wf(),
            fired == old(self).shot is None,
            final(self).x == old(self).x,
            final(self).y == old(self).y,
            fired ==> final(self).shot == Some(Shot::spawned(old(self).x, old(self).y)),
            !fired ==> final(self).shot == old(self).shot,
    {
        if self.shot.is_none() {
            self.shot = Some(Shot::new(self.x, self.y));
            true
        } else {
            false
        }
    }

    /// Lets `delta` nanoseconds pass for the shot in flight, and releases it
    /// once it is dead.
    pub fn update(&mut self, delta: u64)
        requires
            old(self).wf(),
        ensures
            final(self).wf(),
            final(self).x == old(self).x,
            final(self).y == old(self).y,
            final(self).shot == Player::shot_after(old(self).shot, delta),
    {
        if let Some(s) = self.shot {
            let mut s = s;
            s.update(delta);
            if s.dead() {
                self.shot = None;
            } else {
                self.shot = Some(s);
            }
        }
    }

    /// If a travelling shot stands where a member of `invaders` stands, that
    /// member is removed, the shot explodes, and the result is `true`;
    /// otherwise nothing changes and the result is `false`. At most one member
    /// is removed.
    pub fn detect_hits(&mut self, invaders: &mut Invaders) -> (hit: bool)
        requires
            old(self).wf(),
            old(invaders).wf(),
        ensures
            final(self).wf(),
            final(invaders).wf(),
            final(self).x == old(self).x,
            final(self).y == old(self).y,
            hit == (old(self).shot matches Some(s) && !s.exploding
                && exists|i: int| 0 <= i < old(invaders).army@.len()
                    && old(invaders).army@[i] == (Invader { x: s.x, y: s.y })),
            !hit ==> final(self).shot == old(self).shot && final(invaders)@ == old(invaders)@,
            hit ==> final(self).shot == Some(old(self).shot.unwrap().exploded()),
            hit ==> final(invaders).army@.len() == old(invaders).army@.len() - 1,
            hit ==> exists|i: int| 0 <= i < old(invaders).army@.len()
                && old(invaders).army@[i] == (Invader { x: old(self).shot.unwrap().x, y: old(self).shot.unwrap().y })
                && (forall|j: int| 0 <= j < i ==> old(invaders).army@[j] != old(invaders).army@[i])
                && final(invaders).army@ == old(invaders).army@.remove(i),
            final(invaders).move_timer == old(invaders).move_timer,
            final(invaders).direction == old(invaders).direction,
    {
        if let Some(s) = self.shot {
            if !s.exploding && invaders.kill_invader_at(s.x, s.y) {
                let mut s = s;
                s.explode();
                self.shot = Some(s);
                return true;
            }
        }
        false
    }
}

impl Drawable for Player {
    open spec fn drawn(&self, f: Seq<char>) -> Seq<char> {
        let f1 = put_cell(f, self.x as int, self.y as int, PLAYER_GLYPH);
        match self.shot {
            None => f1,
            Some(s) => s.drawn(f1),
        }
    }

    fn draw(&self, frame: &mut Frame) {
        frame.set_cell(self.x, self.y, PLAYER_GLYPH);
        if let Some(s) = self.shot {
            s.draw(frame);
        }
    }
}

} // verus!
