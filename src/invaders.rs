//! The swarm: members on the grid that march sideways together on a timer,
//! drop a row and speed up whenever the march reaches an edge.

use vstd::prelude::*;

use crate::frame::{on_grid, put_cell, Drawable, Frame};
use crate::timer::{lemma_short_of_interval, lemma_sum_nonneg, sum_of, Timer, NANOS_PER_MILLI};
use crate::{NUM_COLS, NUM_ROWS};

verus! {

/// The first interval between two marches, in milliseconds.
pub const START_MOVE_MILLIS: u64 = 2000;

/// How much each drop shortens the interval, in nanoseconds.
pub const SPEEDUP_NANOS: u64 = 250_000_000;

/// The shortest interval the swarm can reach, in nanoseconds.
pub const MIN_MOVE_NANOS: u64 = 250_000_000;

/// The members are placed above this row.
pub const FORMATION_BOTTOM: usize = 9;

/// Glyph of a member during the first half of an interval.
pub const MEMBER_GLYPH_EARLY: char = 'x';

/// Glyph of a member during the second half of an interval.
pub const MEMBER_GLYPH_LATE: char = '+';

#[derive(Clone, Copy, Debug, PartialEq, Eq)]
pub struct Invader {
    pub x: usize,
    pub y: usize,
}

/// The swarm. `direction` is `1` while it marches right and `-1` while it
/// marches left.
pub struct Invaders {
    pub army: Vec<Invader>,
    pub move_timer: Timer,
    pub direction: i32,
}

/// What a swarm is, as a value.
pub struct SwarmState {
    pub army: Seq<Invader>,
    pub move_timer: Timer,
    pub direction: i32,
}

impl View for Invaders {
    type V = SwarmState;

    open spec fn view(&self) -> SwarmState {
        SwarmState { army: self.army@, move_timer: self.move_timer, direction: self.direction }
    }
}

/// Where the starting formation has a member: away from the side edges,
/// above `FORMATION_BOTTOM`, below the top row, on even columns and rows.
pub open spec fn formation_slot(x: int, y: int) -> bool {
    &&& 1 < x < NUM_COLS - 2
    &&& 0 < y < FORMATION_BOTTOM
    &&& x % 2 == 0
    &&& y % 2 == 0
}

/// Column-major order of positions.
pub open spec fn precedes(ax: int, ay: int, bx: int, by: int) -> bool {
    ax < bx || (ax == bx && ay < by)
}

/// The interval after a drop: `max(d - 250 ms, 250 ms)`.
pub open spec fn next_interval(d: u64) -> u64 {
    if d - SPEEDUP_NANOS > MIN_MOVE_NANOS {
        (d - SPEEDUP_NANOS) as u64
    } else {
        MIN_MOVE_NANOS
    }
}

/// A member one row further down; the bottom row is as far as it goes.
pub open spec fn lowered(m: Invader) -> Invader {
    Invader { x: m.x, y: if m.y + 1 < NUM_ROWS { (m.y + 1) as usize } else { m.y } }
}

/// A member one column further in direction `dir`.
pub open spec fn shifted(m: Invader, dir: i32) -> Invader {
    Invader { x: (m.x + dir) as usize, y: m.y }
}

/// The column at which a march in direction `dir` has to turn.
pub open spec fn edge_column(dir: i32) -> int {
    if dir == -1 { 0 } else { NUM_COLS - 1 }
}

/// Whether some member stands at the column where the march turns.
pub open spec fn at_edge(s: SwarmState) -> bool {
    exists|i: int| 0 <= i < s.army.len() && s.army[i].x == edge_column(s.direction)
}

/// Whether some member stands on the bottom row or below it.
pub open spec fn at_bottom(s: SwarmState) -> bool {
    exists|i: int| 0 <= i < s.army.len() && s.army[i].y >= NUM_ROWS - 1
}

impl SwarmState {
    pub open spec fn wf(self) -> bool {
        &&& self.move_timer.wf()
        &&& self.direction == 1 || self.direction == -1
        &&& forall|i: int| 0 <= i < self.army.len() ==> on_grid(#[trigger] self.army[i].x as int, self.army[i].y as int)
    }

    /// The swarm after `delta` nanoseconds, and whether it moved.
    pub open spec fn advanced(self, delta: u64) -> (SwarmState, bool) {
        let t = self.move_timer.advanced(delta);
        if !t.ready {
            (SwarmState { move_timer: t, ..self }, false)
        } else if at_edge(self) {
            (SwarmState {
                army: self.army.map_values(|m: Invader| lowered(m)),
                move_timer: Timer::fresh(next_interval(t.duration)),
                direction: -self.direction as i32,
            }, true)
        } else {
            (SwarmState {
                army: self.army.map_values(|m: Invader| shifted(m, self.direction)),
                move_timer: Timer::fresh(t.duration),
                direction: self.direction,
            }, true)
        }
    }

    /// The swarm after a whole sequence of elapsed times.
    pub open spec fn advanced_by_all(self, deltas: Seq<u64>) -> SwarmState
        decreases deltas.len(),
    {
        if deltas.len() == 0 {
            self
        } else {
            self.advanced_by_all(deltas.drop_last()).advanced(deltas.last()).0
        }
    }

    /// The glyph that every member shows: the first while more than half of
    /// the interval is left, the second after that.
    pub open spec fn glyph(self) -> char {
        if 2 * self.move_timer.time_left > self.move_timer.duration {
            MEMBER_GLYPH_EARLY
        } else {
            MEMBER_GLYPH_LATE
        }
    }
}

/// Cells `f` with each of `members` painted as `g`, in order.
pub open spec fn paint_members(f: Seq<char>, members: Seq<Invader>, g: char) -> Seq<char>
    decreases members.len(),
{
    if members.len() == 0 {
        f
    } else {
        let m = members.last();
        put_cell(paint_members(f, members.drop_last(), g), m.x as int, m.y as int, g)
    }
}

/// Whether some member stands in column `col`.
fn any_in_column(army: &Vec<Invader>, col: usize) -> (r: bool)
    ensures
        r == exists|i: int| 0 <= i < army@.len() && army@[i].x == col,
{
    let mut i: usize = 0;
    while i < army.len()
        invariant
            i <= army@.len(),
            forall|j: int| 0 <= j < i ==> army@[j].x != col,
        decreases army@.len() - i,
    {
        if army[i].x == col {
            return true;
        }
        i += 1;
    }
    false
}

impl Invaders {
    pub open spec fn wf(&self) -> bool {
        self@.wf()
    }

    /// Whether this is the starting swarm: one member on every formation
    /// slot and nowhere else, in column-major order, marching right with a
    /// fresh timer of the first interval.
    pub open spec fn is_starting(&self) -> bool {
        &&& self.wf()
        &&& self.direction == 1
        &&& self.move_timer == Timer::fresh((START_MOVE_MILLIS * NANOS_PER_MILLI) as u64)
        &&& forall|i: int| 0 <= i < self.army@.len()
            ==> formation_slot(#[trigger] self.army@[i].x as int, self.army@[i].y as int)
        &&& forall|x: int, y: int| #[trigger] formation_slot(x, y)
            ==> exists|i: int| 0 <= i < self.army@.len() && self.army@[i] == (Invader { x: x as usize, y: y as usize })
        &&& forall|i: int, j: int| 0 <= i < j < self.army@.len()
            ==> precedes(self.army@[i].x as int, self.army@[i].y as int, self.army@[j].x as int, self.army@[j].y as int)
    }

    /// The starting swarm: one member on every formation slot, in
    /// column-major order, marching right with the first interval.
    pub fn new() -> (r: Invaders)
        ensures
            r.is_starting(),
    {
        let mut army: Vec<Invader> = Vec::new();
        let mut x: usize = 0;
        while x < NUM_COLS
            invariant
                x <= NUM_COLS,
                forall|i: int| 0 <= i < army@.len() ==> formation_slot(#[trigger] army@[i].x as int, army@[i].y as int),
                forall|i: int| 0 <= i < army@.len() ==> #[trigger] army@[i].x < x,
                forall|a: int, b: int| #[trigger] formation_slot(a, b) && a < x
                    ==> exists|i: int| 0 <= i < army@.len() && army@[i] == (Invader { x: a as usize, y: b as usize }),
                forall|i: int, j: int| 0 <= i < j < army@.len()
                    ==> precedes(army@[i].x as int, army@[i].y as int, army@[j].x as int, army@[j].y as int),
            decreases NUM_COLS - x,
        {
            let mut y: usize = 0;
            while y < NUM_ROWS
                invariant
                    x < NUM_COLS,
                    y <= NUM_ROWS,
                    forall|i: int| 0 <= i < army@.len() ==> formation_slot(#[trigger] army@[i].x as int, army@[i].y as int),
                    forall|i: int| 0 <= i < army@.len()
                        ==> precedes(#[trigger] army@[i].x as int, army@[i].y as int, x as int, y as int),
                    forall|a: int, b: int| #[trigger] formation_slot(a, b) && precedes(a, b, x as int, y as int)
                        ==> exists|i: int| 0 <= i < army@.len() && army@[i] == (Invader { x: a as usize, y: b as usize }),
                    forall|i: int, j: int| 0 <= i < j < army@.len()
                        ==> precedes(army@[i].x as int, army@[i].y as int, army@[j].x as int, army@[j].y as int),
                decreases NUM_ROWS - y,
            {
                if x > 1 && x < NUM_COLS - 2 && y > 0 && y < FORMATION_BOTTOM && x % 2 == 0 && y % 2 == 0 {
                    let ghost before = army@;
                    army.push(Invader { x, y });
                    assert forall|a: int, b: int| #[trigger] formation_slot(a, b) && precedes(a, b, x as int, (y + 1) as int)
                        implies exists|i: int| 0 <= i < army@.len() && army@[i] == (Invader { x: a as usize, y: b as usize }) by {
                        if a == x && b == y {
                            assert(army@[before.len() as int] == Invader { x: a as usize, y: b as usize });
                        } else {
                            let i = choose|i: int| 0 <= i < before.len() && before[i] == (Invader { x: a as usize, y: b as usize });
                            assert(army@[i] == before[i]);
                        }
                    }
                }
                y += 1;
            }
            x += 1;
        }
        let r = Invaders { army, move_timer: Timer::from_millis(START_MOVE_MILLIS), direction: 1 };
        assert(forall|i: int| 0 <= i < r.army@.len() ==> on_grid(#[trigger] r.army@[i].x as int, r.army@[i].y as int));
        r
    }

    /// Lets `delta` nanoseconds pass. When the move timer fires, the swarm
    /// either marches one column in its direction or, if a member already
    /// stands at the edge it marches toward, drops one row, turns around and
    /// shortens its interval. Returns whether the timer fired.
    pub fn update(&mut self, delta: u64) -> (moved: bool)
        requires
            old(self).wf(),
        ensures
            final(self).wf(),
            (final(self)@, moved) == old(self)@.advanced(delta),
    {
        let ghost start = self@;
        self.move_timer.update(delta);
        if !self.move_timer.ready {
            return false;
        }
        self.move_timer.reset();
        let ghost timer_after = self.move_timer;
        let edge: usize = if self.direction == -1 { 0 } else { NUM_COLS - 1 };
        let downwards = any_in_column(&self.army, edge);
        if downwards {
            self.direction = -self.direction;
            let d = self.move_timer.duration;
            let next = if d >= SPEEDUP_NANOS && d - SPEEDUP_NANOS > MIN_MOVE_NANOS {
                d - SPEEDUP_NANOS
            } else {
                MIN_MOVE_NANOS
            };
            self.move_timer = Timer::new(next);
            let mut i: usize = 0;
            while i < self.army.len()
                invariant
                    self.army@.len() == start.army.len(),
                    i <= self.army@.len(),
                    forall|j: int| 0 <= j < i ==> self.army@[j] == lowered(#[trigger] start.army[j]),
                    forall|j: int| i <= j < self.army@.len() ==> self.army@[j] == start.army[j],
                    self.move_timer == Timer::fresh(next),
                    self.direction == -start.direction,
                    start.wf(),
                decreases self.army@.len() - i,
            {
                let m = self.army[i];
                assert(on_grid(start.army[i as int].x as int, start.army[i as int].y as int));
                let y = if m.y + 1 < NUM_ROWS { m.y + 1 } else { m.y };
                self.army.set(i, Invader { x: m.x, y });
                i += 1;
            }
            assert(self.army@ =~= start.army.map_values(|m: Invader| lowered(m)));
            assert forall|j: int| 0 <= j < self.army@.len()
                implies on_grid(#[trigger] self.army@[j].x as int, self.army@[j].y as int) by {
                assert(on_grid(start.army[j].x as int, start.army[j].y as int));
            }
        } else {
            let mut i: usize = 0;
            while i < self.army.len()
                invariant
                    self.army@.len() == start.army.len(),
                    i <= self.army@.len(),
                    forall|j: int| 0 <= j < i ==> self.army@[j] == shifted(#[trigger] start.army[j], start.direction),
                    forall|j: int| i <= j < self.army@.len() ==> self.army@[j] == start.army[j],
                    self.direction == start.direction,
                    self.move_timer == timer_after,
                    start.wf(),
                    !at_edge(start),
                decreases self.army@.len() - i,
            {
                let m = self.army[i];
                assert(on_grid(start.army[i as int].x as int, start.army[i as int].y as int));
                assert(m.x != edge_column(start.direction));
                let x = if self.direction == -1 { m.x - 1 } else { m.x + 1 };
                self.army.set(i, Invader { x, y: m.y });
                i += 1;
            }
            assert(self.army@ =~= start.army.map_values(|m: Invader| shifted(m, start.direction)));
            assert forall|j: int| 0 <= j < self.army@.len()
                implies on_grid(#[trigger] self.army@[j].x as int, self.army@[j].y as int) by {
                assert(on_grid(start.army[j].x as int, start.army[j].y as int));
                assert(start.army[j].x != edge_column(start.direction));
            }
        }
        true
    }

    /// Removes the first member standing at `(x, y)`, if there is one, and
    /// says whether one was removed.
    pub fn kill_invader_at(&mut self, x: usize, y: usize) -> (killed: bool)
        requires
            old(self).wf(),
        ensures
            final(self).wf(),
            final(self).move_timer == old(self).move_timer,
            final(self).direction == old(self).direction,
            killed == exists|i: int| 0 <= i < old(self).army@.len() && old(self).army@[i] == (Invader { x, y }),
            !killed ==> final(self).army@ == old(self).army@,
            killed ==> exists|i: int| 0 <= i < old(self).army@.len()
                && old(self).army@[i] == (Invader { x, y })
                && (forall|j: int| 0 <= j < i ==> old(self).army@[j] != (Invader { x, y }))
                && final(self).army@ == old(self).army@.remove(i),
    {
        let mut i: usize = 0;
        while i < self.army.len()
            invariant
                i <= self.army@.len(),
                self@ == old(self)@,
                old(self).wf(),
                forall|j: int| 0 <= j < i ==> self.army@[j] != (Invader { x, y }),
            decreases self.army@.len() - i,
        {
            if self.army[i].x == x && self.army[i].y == y {
                let ghost before = self.army@;
                self.army.remove(i);
                assert forall|j: int| 0 <= j < self.army@.len()
                    implies on_grid(#[trigger] self.army@[j].x as int, self.army@[j].y as int) by {
                    let k = if j < i { j } else { j + 1 };
                    assert(self.army@[j] == before[k]);
                    assert(before[k] == old(self)@.army[k]);
                }
                return true;
            }
            i += 1;
        }
        false
    }

    /// Whether no member is left.
    pub fn all_killed(&self) -> (r: bool)
        ensures
            r == (self.army@.len() == 0),
    {
        self.army.len() == 0
    }

    /// Whether some member has reached the bottom row.
    pub fn reached_bottom(&self) -> (r: bool)
        ensures
            r == at_bottom(self@),
    {
        let mut i: usize = 0;
        while i < self.army.len()
            invariant
                i <= self.army@.len(),
                forall|j: int| 0 <= j < i ==> self.army@[j].y < NUM_ROWS - 1,
            decreases self.army@.len() - i,
        {
            if self.army[i].y >= NUM_ROWS - 1 {
                assert(self@.army[i as int].y >= NUM_ROWS - 1);
                return true;
            }
            i += 1;
        }
        false
    }
}

impl Drawable for Invaders {
    open spec fn drawn(&self, f: Seq<char>) -> Seq<char> {
        paint_members(f, self.army@, self@.glyph())
    }

    fn draw(&self, frame: &mut Frame) {
        let left = self.move_timer.time_left as u128;
        let g = if 2 * left > self.move_timer.duration as u128 {
            MEMBER_GLYPH_EARLY
        } else {
            MEMBER_GLYPH_LATE
        };
        let mut i: usize = 0;
        while i < self.army.len()
            invariant
                i <= self.army@.len(),
                frame.wf(),
                g == self@.glyph(),
                frame@ == paint_members(old(frame)@, self.army@.subrange(0, i as int), g),
            decreases self.army@.len() - i,
        {
            let m = self.army[i];
            frame.set_cell(m.x, m.y, g);
            proof {
                let s = self.army@.subrange(0, i + 1);
                assert(s.drop_last() =~= self.army@.subrange(0, i as int));
            }
            i += 1;
        }
        assert(self.army@.subrange(0, i as int) =~= self.army@);
    }
}

/// While the elapsed times add up to less than what is left of the move
/// interval, no member moves and the march keeps its direction.
pub proof fn lemma_still_within_interval(s: SwarmState, deltas: Seq<u64>)
    requires
        s.wf(),
        !s.move_timer.ready,
        sum_of(deltas) < s.move_timer.time_left,
    ensures
        s.advanced_by_all(deltas) == (SwarmState { move_timer: s.move_timer.advanced_by_all(deltas), ..s }),
        s.advanced_by_all(deltas).army == s.army,
        s.advanced_by_all(deltas).direction == s.direction,
    decreases deltas.len(),
{
    if deltas.len() > 0 {
        let init = deltas.drop_last();
        lemma_sum_nonneg(init);
        lemma_still_within_interval(s, init);
        lemma_short_of_interval(s.move_timer, deltas);
        lemma_short_of_interval(s.move_timer, init);
    }
}

/// When the rightmost member stands at the right edge and the move timer
/// fires, every member drops exactly one row, the march turns left, and the
/// interval becomes `max(interval - 250 ms, 250 ms)`.
pub proof fn lemma_turn_at_right_edge(s: SwarmState, delta: u64)
    requires
        s.wf(),
        s.direction == 1,
        exists|i: int| 0 <= i < s.army.len() && s.army[i].x == NUM_COLS - 1,
        s.move_timer.advanced(delta).ready,
        forall|i: int| 0 <= i < s.army.len() ==> #[trigger] s.army[i].y < NUM_ROWS - 1,
    ensures
        s.advanced(delta).1,
        s.advanced(delta).0.direction == -1,
        s.advanced(delta).0.army.len() == s.army.len(),
        forall|i: int| 0 <= i < s.army.len() ==> #[trigger] s.advanced(delta).0.army[i]
            == (Invader { x: s.army[i].x, y: (s.army[i].y + 1) as usize }),
        s.advanced(delta).0.move_timer.duration
            == vstd::math::max(s.move_timer.duration - 250 * NANOS_PER_MILLI, 250 * NANOS_PER_MILLI),
{
}

} // verus!
