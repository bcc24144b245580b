use invaders::game::{Cue, Game, Intent};
use invaders::invaders::{Invader, Invaders};
use invaders::player::Player;
use invaders::shot::Shot;
use invaders::timer::Timer;
use invaders::NUM_ROWS;

const MS: u64 = 1_000_000;

#[test]
fn intents_move_and_fire() {
    let mut g = Game::new();
    let x = g.player.x;
    assert_eq!(g.handle_intent(Intent::MoveLeft), None);
    assert_eq!(g.player.x, x - 1);
    assert_eq!(g.handle_intent(Intent::MoveRight), None);
    assert_eq!(g.player.x, x);
    assert_eq!(g.handle_intent(Intent::Fire), Some(Cue::Pew));
    assert_eq!(g.handle_intent(Intent::Fire), None);
    assert_eq!(g.handle_intent(Intent::Quit), Some(Cue::Lose));
}

#[test]
fn quiet_step_draws_the_scene() {
    let mut g = Game::new();
    let t = g.advance(10 * MS);
    assert!(t.cues.is_empty());
    assert!(!t.over);
    assert_eq!(t.frame.cell(g.player.x, g.player.y), 'A');
    assert_eq!(t.frame.cell(2, 2), 'x');
}

#[test]
fn march_gives_a_move_cue() {
    let mut g = Game::new();
    let t = g.advance(2000 * MS);
    assert_eq!(t.cues, vec![Cue::Move]);
    assert_eq!(t.frame.cell(3, 2), 'x');
    assert_eq!(t.frame.cell(2, 2), ' ');
}

#[test]
fn last_hit_wins_the_round() {
    let mut g = Game {
        player: Player { x: 4, y: NUM_ROWS - 1, shot: Some(Shot::new(4, 3)) },
        invaders: Invaders { army: vec![Invader { x: 4, y: 2 }], move_timer: Timer::from_millis(2000), direction: 1 },
    };
    let t = g.advance(50 * MS);
    assert_eq!(t.cues, vec![Cue::Explode, Cue::Win]);
    assert!(t.over);
    assert_eq!(t.frame.cell(4, 2), '*');
}

#[test]
fn reaching_the_bottom_loses_the_round() {
    let mut g = Game {
        player: Player::new(),
        invaders: Invaders {
            army: vec![Invader { x: 4, y: NUM_ROWS - 1 }],
            move_timer: Timer::from_millis(2000),
            direction: 1,
        },
    };
    let t = g.advance(1 * MS);
    assert_eq!(t.cues, vec![Cue::Lose]);
    assert!(t.over);
}

#[test]
fn new_round_starts_with_the_full_formation() {
    let g = Game::new();
    let fresh = Invaders::new();
    assert_eq!(g.invaders.army, fresh.army);
    assert_eq!(g.invaders.army.len(), 72);
    assert_eq!(g.invaders.move_timer, Timer::from_millis(2000));
    assert!(!g.invaders.move_timer.ready);
    assert_eq!(g.invaders.direction, 1);
}
