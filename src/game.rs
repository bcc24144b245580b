//! One round of play, step by step: the decisions of the game loop, apart
//! from reading keys, playing sounds and writing to the screen.

use vstd::prelude::*;

use crate::frame::{blank_cells, new_frame, Drawable, Frame};
use crate::invaders::{at_bottom, Invader, Invaders, SwarmState};
use crate::shot::Shot;
use crate::player::Player;
use crate::NUM_ROWS;

verus! {

/// What the player asks for.
#[derive(Clone, Copy, Debug, PartialEq, Eq)]
pub enum Intent {
    MoveLeft,
    MoveRight,
    Fire,
    Quit,
}

/// A sound to be played.
#[derive(Clone, Copy, Debug, PartialEq, Eq)]
pub enum Cue {
    Move,
    Pew,
    Explode,
    Win,
    Lose,
}

/// What one step of the game produced.
pub struct Tick {
    /// Sounds to play, in order.
    pub cues: Vec<Cue>,
    /// The frame to display.
    pub frame: Frame,
    /// Whether the round is over.
    pub over: bool,
}

pub struct Game {
    pub player: Player,
    pub invaders: Invaders,
}

/// Whether a travelling shot stands where some member stands.
pub open spec fn shot_hits(shot: Option<Shot>, s: SwarmState) -> bool {
    shot matches Some(sh) && !sh.exploding
        && exists|i: int| 0 <= i < s.army.len() && s.army[i] == (Invader { x: sh.x, y: sh.y })
}

/// The sounds of a step, given what happened in it.
pub open spec fn step_cues(moved: bool, hit: bool, won: bool, lost: bool) -> Seq<Cue> {
    (if moved { seq![Cue::Move] } else { Seq::empty() })
        + (if hit { seq![Cue::Explode] } else { Seq::empty() })
        + (if won { seq![Cue::Win] } else if lost { seq![Cue::Lose] } else { Seq::empty() })
}

impl Game {
    pub open spec fn wf(&self) -> bool {
        self.player.wf() && self.invaders.wf()
    }

    /// A new round: the starting swarm and the player in the middle.
    pub fn new() -> (r: Game)
        ensures
            r.wf(),
            r.player.x == crate::NUM_COLS / 2,
            r.player.y == NUM_ROWS - 1,
            r.player.shot is None,
            r.invaders.is_starting(),
    {
        Game { player: Player::new(), invaders: Invaders::new() }
    }

    /// Acts on one intent of the player. Returns the sound it calls for:
    /// a shot fired, or the lost round on quitting.
    pub fn handle_intent(&mut self, intent: Intent) -> (cue: Option<Cue>)
        requires
            old(self).wf(),
        ensures
            final(self).wf(),
            final(self).invaders@ == old(self).invaders@,
            final(self).player.y == old(self).player.y,
            intent == Intent::MoveLeft ==> cue is None && final(self).player.shot == old(self).player.shot
                && final(self).player.x == if old(self).player.x > 0 { old(self).player.x - 1 } else { 0int },
            intent == Intent::MoveRight ==> cue is None && final(self).player.shot == old(self).player.shot
                && final(self).player.x == if old(self).player.x < crate::NUM_COLS - 1 {
                    old(self).player.x + 1
                } else {
                    old(self).player.x as int
                },
            intent == Intent::Fire ==> final(self).player.x == old(self).player.x
                && cue == (if old(self).player.shot is None { Some(Cue::Pew) } else { None::<Cue> })
                && final(self).player.shot == (if old(self).player.shot is None {
                    Some(Shot::spawned(old(self).player.x, old(self).player.y))
                } else {
                    old(self).player.shot
                }),
            intent == Intent::Quit ==> cue == Some(Cue::Lose) && final(self).player == old(self).player,
    {
        match intent {
            Intent::MoveLeft => {
                self.player.move_left();
                None
            },
            Intent::MoveRight => {
                self.player.move_right();
                None
            },
            Intent::Fire => {
                if self.player.shoot() {
                    Some(Cue::Pew)
                } else {
                    None
                }
            },
            Intent::Quit => Some(Cue::Lose),
        }
    }

    /// Lets `delta` nanoseconds pass: the shot and the swarm advance, a shot
    /// that meets a member destroys it, the frame is drawn (player first,
    /// swarm over it), and the round ends when no member is left (won) or one
    /// has reached the bottom row (lost).
    pub fn advance(&mut self, delta: u64) -> (r: Tick)
        requires
            old(self).wf(),
        ensures
            final(self).wf(),
            ({
                let shot1 = Player::shot_after(old(self).player.shot, delta);
                let (swarm1, moved) = old(self).invaders@.advanced(delta);
                let hit = shot_hits(shot1, swarm1);
                let won = final(self).invaders.army@.len() == 0;
                let lost = !won && at_bottom(final(self).invaders@);
                &&& final(self).player.x == old(self).player.x
                &&& final(self).player.y == old(self).player.y
                &&& !hit ==> final(self).player.shot == shot1 && final(self).invaders@ == swarm1
                &&& hit ==> final(self).player.shot == Some(shot1.unwrap().exploded())
                    && final(self).invaders.move_timer == swarm1.move_timer
                    && final(self).invaders.direction == swarm1.direction
                    && exists|i: int| 0 <= i < swarm1.army.len()
                        && swarm1.army[i] == (Invader { x: shot1.unwrap().x, y: shot1.unwrap().y })
                        && (forall|j: int| 0 <= j < i ==> swarm1.army[j] != swarm1.army[i])
                        && final(self).invaders.army@ == swarm1.army.remove(i)
                &&& r.cues@ == step_cues(moved, hit, won, lost)
                &&& r.over == (won || lost)
                &&& r.frame.wf()
                &&& r.frame@ == final(self).invaders.drawn(final(self).player.drawn(blank_cells()))
            }),
    {
        self.player.update(delta);
        let moved = self.invaders.update(delta);
        let ghost shot1 = self.player.shot;
        let ghost swarm1 = self.invaders@;
        let ghost army1 = self.invaders.army@;
        assert(army1 == swarm1.army);
        let hit = self.player.detect_hits(&mut self.invaders);
        proof {
            if hit {
                let sh = shot1.unwrap();
                let i = choose|i: int| 0 <= i < army1.len() && army1[i] == (Invader { x: sh.x, y: sh.y });
                assert(swarm1.army[i] == (Invader { x: sh.x, y: sh.y }));
            }
        }
        assert(hit == shot_hits(shot1, swarm1));
        let mut frame = new_frame();
        self.player.draw(&mut frame);
        self.invaders.draw(&mut frame);
        let won = self.invaders.all_killed();
        let at_bottom_row = self.invaders.reached_bottom();
        let lost = !won && at_bottom_row;
        let mut cues: Vec<Cue> = Vec::new();
        if moved {
            cues.push(Cue::Move);
        }
        if hit {
            cues.push(Cue::Explode);
        }
        if won {
            cues.push(Cue::Win);
        } else if lost {
            cues.push(Cue::Lose);
        }
        assert(cues@ =~= step_cues(moved, hit, won, lost));
        Tick { cues, frame, over: won || lost }
    }
}

} // verus!
