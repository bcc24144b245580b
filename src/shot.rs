//! The player's projectile: it travels up one row per tick, can explode, and
//! is dead once its explosion has been shown or it has reached the top row.

use vstd::prelude::*;

use crate::frame::{put_cell, Drawable, Frame};
use crate::timer::{sum_of, lemma_runs_out, Timer};

verus! {

/// Time between two steps of a travelling shot, in milliseconds.
pub const SHOT_STEP_MILLIS: u64 = 50;

/// How long an explosion stays visible, in milliseconds.
pub const EXPLOSION_MILLIS: u64 = 250;

/// Glyph of a travelling shot.
pub const SHOT_GLYPH: char = '|';

/// Glyph of an exploding shot.
pub const EXPLOSION_GLYPH: char = '*';

#[derive(Clone, Copy, Debug, PartialEq, Eq)]
pub struct Shot {
    pub x: usize,
    pub y: usize,
    pub exploding: bool,
    /// Paces travel while the shot flies, and the explosion afterwards.
    pub timer: Timer,
}

impl Shot {
    pub open spec fn wf(self) -> bool {
        self.timer.wf()
    }

    /// The shot after `delta` nanoseconds have elapsed.
    pub open spec fn advanced(self, delta: u64) -> Shot {
        let t = self.timer.advanced(delta);
        if t.ready && !self.exploding {
            Shot {
                y: if self.y > 0 { (self.y - 1) as usize } else { 0 },
                timer: Timer::fresh(t.duration),
                ..self
            }
        } else {
            Shot { timer: t, ..self }
        }
    }

    /// The shot after a whole sequence of elapsed times.
    pub open spec fn advanced_by_all(self, deltas: Seq<u64>) -> Shot
        decreases deltas.len(),
    {
        if deltas.len() == 0 {
            self
        } else {
            self.advanced_by_all(deltas.drop_last()).advanced(deltas.last())
        }
    }

    /// A new travelling shot at `(x, y)`.
    pub open spec fn spawned(x: usize, y: usize) -> Shot {
        Shot {
            x,
            y,
            exploding: false,
            timer: Timer::fresh((SHOT_STEP_MILLIS * crate::timer::NANOS_PER_MILLI) as u64),
        }
    }

    /// The shot turned into an explosion.
    pub open spec fn exploded(self) -> Shot {
        Shot {
            exploding: true,
            timer: Timer::fresh((EXPLOSION_MILLIS * crate::timer::NANOS_PER_MILLI) as u64),
            ..self
        }
    }

    pub open spec fn is_dead(self) -> bool {
        (self.exploding && self.timer.ready) || (!self.exploding && self.y == 0)
    }

    /// A new shot at `(x, y)`, travelling.
    pub fn new(x: usize, y: usize) -> (r: Shot)
        ensures
            r == Shot::spawned(x, y),
            r.wf(),
    {
        Shot { x, y, exploding: false, timer: Timer::from_millis(SHOT_STEP_MILLIS) }
    }

    /// Lets `delta` nanoseconds pass: a travelling shot whose timer fires
    /// moves one row up (never above row 0) and starts its next step.
    pub fn update(&mut self, delta: u64)
        requires
            old(self).wf(),
        ensures
            *final(self) == old(self).advanced(delta),
            final(self).wf(),
    {
        self.timer.update(delta);
        if self.timer.ready && !self.exploding {
            if self.y > 0 {
                self.y -= 1;
            }
            self.timer.reset();
        }
    }

    /// Turns the shot into an explosion, shown for a fixed time. Calling it
    /// again restarts that time.
    pub fn explode(&mut self)
        ensures
            *final(self) == old(self).exploded(),
            final(self).wf(),
    {
        self.exploding = true;
        self.timer = Timer::from_millis(EXPLOSION_MILLIS);
    }

    /// Whether the explosion has been shown in full, or the shot has reached
    /// the top row while still travelling.
    pub fn dead(&self) -> (r: bool)
        ensures
            r == self.is_dead(),
    {
        (self.exploding && self.timer.ready) || (!self.exploding && self.y == 0)
    }

    pub open spec fn glyph(self) -> char {
        if self.exploding { EXPLOSION_GLYPH } else { SHOT_GLYPH }
    }
}

impl Drawable for Shot {
    open spec fn drawn(&self, f: Seq<char>) -> Seq<char> {
        put_cell(f, self.x as int, self.y as int, self.glyph())
    }

    fn draw(&self, frame: &mut Frame) {
        let g = if self.exploding { EXPLOSION_GLYPH } else { SHOT_GLYPH };
        frame.set_cell(self.x, self.y, g);
    }
}

/// An exploding shot is dead once the elapsed times add up to what was left
/// of its explosion.
pub proof fn lemma_explosion_ends(s: Shot, deltas: Seq<u64>)
    requires
        s.wf(),
        s.exploding,
        sum_of(deltas) >= s.timer.time_left,
        deltas.len() > 0,
    ensures
        s.advanced_by_all(deltas).is_dead(),
{
    lemma_exploding_follows_timer(s, deltas);
    if s.timer.ready {
        lemma_ready_stays(s.timer, deltas);
    } else {
        lemma_runs_out(s.timer, deltas);
    }
}

/// An exploding shot stays in place; only its timer runs.
pub proof fn lemma_exploding_follows_timer(s: Shot, deltas: Seq<u64>)
    requires
        s.exploding,
    ensures
        s.advanced_by_all(deltas) == (Shot { timer: s.timer.advanced_by_all(deltas), ..s }),
    decreases deltas.len(),
{
    if deltas.len() > 0 {
        lemma_exploding_follows_timer(s, deltas.drop_last());
    }
}

/// A ready timer stays as it is.
proof fn lemma_ready_stays(t: Timer, deltas: Seq<u64>)
    requires
        t.ready,
    ensures
        t.advanced_by_all(deltas) == t,
    decreases deltas.len(),
{
    if deltas.len() > 0 {
        lemma_ready_stays(t, deltas.drop_last());
    }
}

/// A travelling shot that has reached the top row is dead.
pub proof fn lemma_top_row_is_dead(s: Shot)
    requires
        !s.exploding,
        s.y == 0,
    ensures
        s.is_dead(),
{
}

} // verus!
